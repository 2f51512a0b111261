//! The operation tracker: every provision, update, bind, unbind and
//! deprovision runs as an `Operation`, and at most one operation per resource
//! is ever in progress.  `begin` is a single atomic check-and-set: it refuses
//! to start while the resource's current operation is still in progress.

use vstd::prelude::*;
use crate::keyed_map::{KeyedMap, MapKey};
use crate::polling::LastOperationState;

verus! {

/// What kind of lifecycle action an operation performs.
#[derive(Clone, Copy, Debug, PartialEq, Eq, Structural)]
pub enum OperationKind {
    Provision,
    Update,
    Deprovision,
    Bind,
    Unbind,
}

/// The key of the resource an operation runs against.
#[derive(Debug)]
pub enum ResourceKey {
    Instance { instance_id: String },
    Binding { instance_id: String, binding_id: String },
}

pub enum ResourceKeyView {
    Instance { instance_id: Seq<char> },
    Binding { instance_id: Seq<char>, binding_id: Seq<char> },
}

impl View for ResourceKey {
    type V = ResourceKeyView;

    open spec fn view(&self) -> ResourceKeyView {
        match self {
            ResourceKey::Instance { instance_id } => ResourceKeyView::Instance {
                instance_id: instance_id@,
            },
            ResourceKey::Binding { instance_id, binding_id } => ResourceKeyView::Binding {
                instance_id: instance_id@,
                binding_id: binding_id@,
            },
        }
    }
}

impl MapKey for ResourceKey {
    fn key_eq(&self, other: &Self) -> (r: bool)
        ensures
            r == (self@ == other@),
    {
        match (self, other) {
            (
                ResourceKey::Instance { instance_id: a },
                ResourceKey::Instance { instance_id: b },
            ) => *a == *b,
            (
                ResourceKey::Binding { instance_id: a, binding_id: c },
                ResourceKey::Binding { instance_id: b, binding_id: d },
            ) => *a == *b && *c == *d,
            _ => false,
        }
    }
}

/// One lifecycle operation on one resource.  A terminal operation is kept
/// until a new operation on the same resource supersedes it.
#[derive(Debug)]
pub struct Operation {
    pub kind: OperationKind,
    pub state: LastOperationState,
    pub description: String,
    pub created_at: u64,
    pub instance_usable: bool,
    pub update_repeatable: bool,
}

pub struct OperationView {
    pub kind: OperationKind,
    pub state: LastOperationState,
    pub description: Seq<char>,
    pub created_at: u64,
    pub instance_usable: bool,
    pub update_repeatable: bool,
}

impl View for Operation {
    type V = OperationView;

    open spec fn view(&self) -> OperationView {
        OperationView {
            kind: self.kind,
            state: self.state,
            description: self.description@,
            created_at: self.created_at,
            instance_usable: self.instance_usable,
            update_repeatable: self.update_repeatable,
        }
    }
}

/// Whether an in-progress operation holds the resource.
pub open spec fn spec_in_progress(
    ops: Map<ResourceKeyView, OperationView>,
    key: ResourceKeyView,
) -> bool {
    ops.contains_key(key) && ops[key].state == LastOperationState::InProgress
}

/// The operation `begin` records.
pub open spec fn spec_new_op(kind: OperationKind, description: Seq<char>, created_at: u64)
    -> OperationView {
    OperationView {
        kind,
        state: LastOperationState::InProgress,
        description,
        created_at,
        instance_usable: true,
        update_repeatable: true,
    }
}

/// The operation `complete` leaves behind.
pub open spec fn spec_completed_op(
    op: OperationView,
    succeeded: bool,
    instance_usable: bool,
    update_repeatable: bool,
) -> OperationView {
    OperationView {
        state: if succeeded {
            LastOperationState::Succeeded
        } else {
            LastOperationState::Failed
        },
        instance_usable,
        update_repeatable,
        ..op
    }
}

/// The tracker owns every operation record, keyed by resource.
pub struct OperationTracker {
    ops: KeyedMap<ResourceKey, Operation>,
}

impl View for OperationTracker {
    type V = Map<ResourceKeyView, OperationView>;

    closed spec fn view(&self) -> Map<ResourceKeyView, OperationView> {
        self.ops@
    }
}

impl OperationTracker {
    pub closed spec fn wf(&self) -> bool {
        self.ops.wf()
    }

    pub fn new() -> (r: Self)
        ensures
            r.wf(),
            r@ == Map::<ResourceKeyView, OperationView>::empty(),
    {
        OperationTracker { ops: KeyedMap::new() }
    }

    /// Starts an operation, unless one is still in progress on the resource:
    /// the broker's primary concurrency control.
    pub fn begin(
        &mut self,
        key: ResourceKey,
        kind: OperationKind,
        description: String,
        created_at: u64,
    ) -> (started: bool)
        requires
            old(self).wf(),
        ensures
            final(self).wf(),
            started == !spec_in_progress(old(self)@, key@),
            started ==> final(self)@ == old(self)@.insert(
                key@,
                spec_new_op(kind, description@, created_at),
            ),
            !started ==> final(self)@ == old(self)@,
    {
        let in_progress = match self.ops.get(&key) {
            Some(op) => op.state == LastOperationState::InProgress,
            None => false,
        };
        if in_progress {
            return false;
        }
        self.ops.insert(
            key,
            Operation {
                kind,
                state: LastOperationState::InProgress,
                description,
                created_at,
                instance_usable: true,
                update_repeatable: true,
            },
        );
        true
    }

    /// Moves the resource's in-progress operation to a terminal state; fails
    /// when none is in progress.
    pub fn complete(
        &mut self,
        key: ResourceKey,
        succeeded: bool,
        instance_usable: bool,
        update_repeatable: bool,
    ) -> (r: bool)
        requires
            old(self).wf(),
        ensures
            final(self).wf(),
            r == spec_in_progress(old(self)@, key@),
            r ==> final(self)@ == old(self)@.insert(
                key@,
                spec_completed_op(old(self)@[key@], succeeded, instance_usable, update_repeatable),
            ),
            !r ==> final(self)@ == old(self)@,
    {
        let current = match self.ops.get(&key) {
            Some(op) => {
                if op.state == LastOperationState::InProgress {
                    Some((op.kind, op.description.clone(), op.created_at))
                } else {
                    None
                }
            },
            None => None,
        };
        match current {
            Some((kind, description, created_at)) => {
                self.ops.insert(
                    key,
                    Operation {
                        kind,
                        state: if succeeded {
                            LastOperationState::Succeeded
                        } else {
                            LastOperationState::Failed
                        },
                        description,
                        created_at,
                        instance_usable,
                        update_repeatable,
                    },
                );
                true
            },
            None => false,
        }
    }

    /// The resource's current operation, the read path of polling.
    pub fn current<'a>(&'a self, key: &ResourceKey) -> (r: Option<&'a Operation>)
        requires
            self.wf(),
        ensures
            match r {
                Some(op) => self@.contains_key(key@) && op@ == self@[key@],
                None => !self@.contains_key(key@),
            },
    {
        self.ops.get(key)
    }
}

} // verus!
