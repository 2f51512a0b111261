//! The last-operation polling surface: what a platform sees when it asks how
//! an asynchronous lifecycle operation is doing.

use vstd::prelude::*;
use crate::kv::opt_str_view;

verus! {

/// Query parameters of a last-operation poll.
#[derive(Debug)]
pub struct LastOperationParams {
    pub service_id: Option<String>,
    pub plan_id: Option<String>,
    pub operation: Option<String>,
}

/// Body of an instance last-operation response.
#[derive(Debug)]
pub struct ServiceInstanceLastOp {
    pub state: LastOperationState,
    pub description: Option<String>,
    pub instance_usable: Option<bool>,
    pub update_repeatable: Option<bool>,
}

/// Body of a binding last-operation response.
#[derive(Debug)]
pub struct ServiceBindingLastOp {
    pub state: LastOperationState,
    pub description: Option<String>,
}

/// Where an operation stands.
#[derive(Clone, Copy, Debug, PartialEq, Eq, Structural)]
pub enum LastOperationState {
    InProgress,
    Succeeded,
    Failed,
}

impl Default for LastOperationState {
    fn default() -> (r: Self)
        ensures
            r == LastOperationState::InProgress,
    {
        LastOperationState::InProgress
    }
}

pub struct ServiceInstanceLastOpView {
    pub state: LastOperationState,
    pub description: Option<Seq<char>>,
    pub instance_usable: Option<bool>,
    pub update_repeatable: Option<bool>,
}

impl View for ServiceInstanceLastOp {
    type V = ServiceInstanceLastOpView;

    open spec fn view(&self) -> ServiceInstanceLastOpView {
        ServiceInstanceLastOpView {
            state: self.state,
            description: opt_str_view(self.description),
            instance_usable: self.instance_usable,
            update_repeatable: self.update_repeatable,
        }
    }
}

pub struct ServiceBindingLastOpView {
    pub state: LastOperationState,
    pub description: Option<Seq<char>>,
}

impl View for ServiceBindingLastOp {
    type V = ServiceBindingLastOpView;

    open spec fn view(&self) -> ServiceBindingLastOpView {
        ServiceBindingLastOpView {
            state: self.state,
            description: opt_str_view(self.description),
        }
    }
}

} // verus!
