//! The lifecycle engine: the state machine that drives service instances and
//! bindings through provision, update, bind, unbind and deprovision, with
//! idempotent replay detection, conflict detection, and the asynchronous
//! last-operation protocol.
//!
//! Every transition is stated twice: as a specification function over the
//! broker's mathematical state, and as an executable method proved to follow
//! it.  Outside completion signals (the provisioner reporting an asynchronous
//! operation done) arrive through the `complete_*` methods.

use vstd::prelude::*;
use crate::binding::{
    Binding, BindingRequestBody, BindingType, BindingView, Device, DeviceType, DeviceView,
    VolumeMode, VolumeMount, VolumeMountView,
};
use crate::catalog::{spec_catalog_find, Catalog, ServiceView};
use crate::errors::{spec_err, ErrorCode, ErrorCodeView, OSBError, OSBErrorView};
use crate::kv::{
    clone_opt_string, kv_matches_opt, kv_of_opt, kv_view, opt_kv, opt_kv_view, opt_str_view,
};
use crate::polling::{
    LastOperationParams, LastOperationState, ServiceBindingLastOp, ServiceBindingLastOpView,
    ServiceInstanceLastOp, ServiceInstanceLastOpView,
};
use crate::service::{
    CreatedServiceIstance, CreatedServiceIstanceView, ProvisionParams, ServiceDeleteParams,
    ServiceFetchParams, ServiceInstanceRequestBody, ServiceIstance, ServiceIstanceView,
    ServiceUpdateRequestBody,
};
use crate::store::{
    spec_any_bound, BindingKey, BindingRecord, BindingRecordView, BindingState, InstanceRecord,
    InstanceRecordView, InstanceState, ResourceStore,
};
use crate::tracker::{
    spec_completed_op, spec_in_progress, OperationKind, OperationTracker, OperationView,
    ResourceKey, ResourceKeyView,
};

verus! {

/// The broker's whole mathematical state.
#[verifier::ext_equal]
pub struct BrokerView {
    pub catalog: Seq<ServiceView>,
    pub synchronous: bool,
    pub instances: Map<Seq<char>, InstanceRecordView>,
    pub bindings: Map<(Seq<char>, Seq<char>), BindingRecordView>,
    pub ops: Map<ResourceKeyView, OperationView>,
}

/// Body and status of a successful provision or update response.
#[derive(Debug)]
pub struct ProvisionReply {
    pub status: u16,
    pub body: CreatedServiceIstance,
}

pub struct ProvisionReplyView {
    pub status: u16,
    pub body: CreatedServiceIstanceView,
}

impl View for ProvisionReply {
    type V = ProvisionReplyView;

    open spec fn view(&self) -> ProvisionReplyView {
        ProvisionReplyView { status: self.status, body: self.body@ }
    }
}

/// Body and status of a successful deprovision or unbind response.
#[derive(Debug)]
pub struct DeleteReply {
    pub status: u16,
    pub operation: Option<String>,
}

pub struct DeleteReplyView {
    pub status: u16,
    pub operation: Option<Seq<char>>,
}

impl View for DeleteReply {
    type V = DeleteReplyView;

    open spec fn view(&self) -> DeleteReplyView {
        DeleteReplyView { status: self.status, operation: opt_str_view(self.operation) }
    }
}

/// Body and status of a successful bind response.
#[derive(Debug)]
pub struct BindReply {
    pub status: u16,
    pub body: Binding,
}

pub struct BindReplyView {
    pub status: u16,
    pub body: BindingView,
}

impl View for BindReply {
    type V = BindReplyView;

    open spec fn view(&self) -> BindReplyView {
        BindReplyView { status: self.status, body: self.body@ }
    }
}

/// The view of an engine result.
pub open spec fn res_view<T: View>(r: Result<T, OSBError>) -> Result<T::V, OSBErrorView> {
    match r {
        Ok(x) => Ok(x@),
        Err(e) => Err(e@),
    }
}

/// Whether a request opted into asynchronous completion.
pub open spec fn spec_ai(o: Option<bool>) -> bool {
    o == Some(true)
}

fn ai(o: &Option<bool>) -> (r: bool)
    ensures
        r == spec_ai(*o),
{
    match o {
        Some(b) => *b,
        None => false,
    }
}

/// The operation token handed to clients polling a kind of operation.
pub open spec fn spec_token(kind: OperationKind) -> Seq<char> {
    match kind {
        OperationKind::Provision => "provision"@,
        OperationKind::Update => "update"@,
        OperationKind::Deprovision => "deprovision"@,
        OperationKind::Bind => "bind"@,
        OperationKind::Unbind => "unbind"@,
    }
}

fn token_of(kind: OperationKind) -> (r: String)
    ensures
        r@ == spec_token(kind),
{
    match kind {
        OperationKind::Provision => "provision".to_owned(),
        OperationKind::Update => "update".to_owned(),
        OperationKind::Deprovision => "deprovision".to_owned(),
        OperationKind::Bind => "bind".to_owned(),
        OperationKind::Unbind => "unbind".to_owned(),
    }
}

/// The operation record a freshly accepted request leaves behind: terminal at
/// once on the synchronous path, in progress on the asynchronous one.
pub open spec fn spec_settled_op(kind: OperationKind, synchronous: bool, now: u64)
    -> OperationView {
    OperationView {
        kind,
        state: if synchronous {
            LastOperationState::Succeeded
        } else {
            LastOperationState::InProgress
        },
        description: spec_token(kind),
        created_at: now,
        instance_usable: true,
        update_repeatable: true,
    }
}

/// The record a fresh provision stores.
pub open spec fn spec_new_instance(
    req: ServiceInstanceRequestBody,
    synchronous: bool,
) -> InstanceRecordView {
    InstanceRecordView {
        service_id: req.service_id@,
        plan_id: req.plan_id@,
        parameters: opt_kv_view(opt_kv(req.parameters)),
        context: opt_kv_view(opt_kv(req.context)),
        maintenance_info_version: match req.maintenance_info {
            Some(mi) => Some(mi.version@),
            None => None,
        },
        dashboard_url: None,
        state: if synchronous {
            InstanceState::Active
        } else {
            InstanceState::Provisioning
        },
        revision: 0,
    }
}

/// What an idempotent provision replay answers: the prior body, with 202 and
/// an operation token while the create is still in progress, and 200 once
/// the resource has settled.
pub open spec fn spec_replay_reply(inst: InstanceRecordView) -> ProvisionReplyView {
    let provisioning = inst.state == InstanceState::Provisioning;
    ProvisionReplyView {
        status: if provisioning {
            202
        } else {
            200
        },
        body: CreatedServiceIstanceView {
            dashboard_url: inst.dashboard_url,
            operation: if provisioning {
                Some(spec_token(OperationKind::Provision))
            } else {
                None
            },
            metadata: None,
        },
    }
}

/// Provision: catalog lookup, replay and conflict detection, the concurrency
/// guard, then acceptance, synchronous or asynchronous.
pub open spec fn spec_provision(
    b: BrokerView,
    instance_id: Seq<char>,
    req: ServiceInstanceRequestBody,
    accepts_incomplete: bool,
    now: u64,
) -> (BrokerView, Result<ProvisionReplyView, OSBErrorView>) {
    let key = ResourceKeyView::Instance { instance_id };
    match spec_catalog_find(b.catalog, req.service_id@, req.plan_id@) {
        None => (b, Err(spec_err(ErrorCodeView::CatalogEntryNotFound))),
        Some(_) => if b.instances.contains_key(instance_id) {
            let inst = b.instances[instance_id];
            if inst.service_id == req.service_id@ && inst.plan_id == req.plan_id@
                && inst.parameters == opt_kv_view(opt_kv(req.parameters)) {
                (b, Ok(spec_replay_reply(inst)))
            } else {
                (b, Err(spec_err(ErrorCodeView::InstanceAlreadyExists)))
            }
        } else if spec_in_progress(b.ops, key) {
            (b, Err(spec_err(ErrorCodeView::OperationAlreadyInProgress)))
        } else if !b.synchronous && !accepts_incomplete {
            (b, Err(spec_err(ErrorCodeView::AsyncRequired)))
        } else {
            let status: u16 = if b.synchronous {
                201
            } else {
                202
            };
            let b2 = BrokerView {
                instances: b.instances.insert(
                    instance_id,
                    spec_new_instance(req, b.synchronous),
                ),
                ops: b.ops.insert(key, spec_settled_op(OperationKind::Provision, b.synchronous, now)),
                ..b
            };
            let reply = ProvisionReplyView {
                status,
                body: CreatedServiceIstanceView {
                    dashboard_url: None,
                    operation: if b.synchronous {
                        None
                    } else {
                        Some(spec_token(OperationKind::Provision))
                    },
                    metadata: None,
                },
            };
            (b2, Ok(reply))
        },
    }
}


/// The next revision of a record; the counter wraps at the top.
pub open spec fn spec_next_rev(r: u64) -> u64 {
    if r == u64::MAX {
        0
    } else {
        (r + 1) as u64
    }
}

/// What an update stores: the target plan, replaced payloads, the recorded
/// maintenance version, and a bumped revision.
pub open spec fn spec_updated_instance(
    inst: InstanceRecordView,
    target_plan: Seq<char>,
    req: ServiceUpdateRequestBody,
    synchronous: bool,
) -> InstanceRecordView {
    InstanceRecordView {
        plan_id: target_plan,
        parameters: match req.parameters {
            Some(p) => kv_view(p@),
            None => inst.parameters,
        },
        context: match req.context {
            Some(c) => kv_view(c@),
            None => inst.context,
        },
        maintenance_info_version: match req.maintenance_info {
            Some(mi) => Some(mi.version@),
            None => inst.maintenance_info_version,
        },
        state: if synchronous {
            InstanceState::Active
        } else {
            InstanceState::Updating
        },
        revision: spec_next_rev(inst.revision),
        ..inst
    }
}

/// Update: only known, quiescent instances; a plan change needs the target
/// plan `plan_updateable`; a supplied maintenance version must match the
/// catalog's; then acceptance, synchronous or asynchronous.  The instance's
/// own service and the target plan must still be in the catalog.
pub open spec fn spec_update(
    b: BrokerView,
    instance_id: Seq<char>,
    req: ServiceUpdateRequestBody,
    accepts_incomplete: bool,
    now: u64,
) -> (BrokerView, Result<ProvisionReplyView, OSBErrorView>) {
    let key = ResourceKeyView::Instance { instance_id };
    if !b.instances.contains_key(instance_id) {
        (b, Err(spec_err(ErrorCodeView::NotFound)))
    } else {
        let inst = b.instances[instance_id];
        if spec_in_progress(b.ops, key) {
            (b, Err(spec_err(ErrorCodeView::OperationAlreadyInProgress)))
        } else {
            let target_plan = match req.plan_id {
                Some(p) => p@,
                None => inst.plan_id,
            };
            match spec_catalog_find(b.catalog, inst.service_id, target_plan) {
                None => (b, Err(spec_err(ErrorCodeView::CatalogEntryNotFound))),
                Some(entry) => if target_plan != inst.plan_id && !entry.plan_updateable {
                    (b, Err(spec_err(ErrorCodeView::PlanNotUpdateable)))
                } else if match req.maintenance_info {
                    Some(mi) => Some(mi.version@) != entry.maintenance_info_version,
                    None => false,
                } {
                    (b, Err(spec_err(ErrorCodeView::MaintenanceInfoConflict)))
                } else if !b.synchronous && !accepts_incomplete {
                    (b, Err(spec_err(ErrorCodeView::AsyncRequired)))
                } else {
                    let status: u16 = if b.synchronous {
                        200
                    } else {
                        202
                    };
                    let b2 = BrokerView {
                        instances: b.instances.insert(
                            instance_id,
                            spec_updated_instance(inst, target_plan, req, b.synchronous),
                        ),
                        ops: b.ops.insert(
                            key,
                            spec_settled_op(OperationKind::Update, b.synchronous, now),
                        ),
                        ..b
                    };
                    let reply = ProvisionReplyView {
                        status,
                        body: CreatedServiceIstanceView {
                            dashboard_url: None,
                            operation: if b.synchronous {
                                None
                            } else {
                                Some(spec_token(OperationKind::Update))
                            },
                            metadata: None,
                        },
                    };
                    (b2, Ok(reply))
                },
            }
        }
    }
}

/// Deprovision: already-absent instances answer as already gone; bound
/// bindings block; otherwise acceptance, synchronous or asynchronous.
pub open spec fn spec_deprovision(
    b: BrokerView,
    instance_id: Seq<char>,
    accepts_incomplete: bool,
    now: u64,
) -> (BrokerView, Result<DeleteReplyView, OSBErrorView>) {
    let key = ResourceKeyView::Instance { instance_id };
    if !b.instances.contains_key(instance_id) {
        (b, Ok(DeleteReplyView { status: 410, operation: None }))
    } else if spec_in_progress(b.ops, key) {
        (b, Err(spec_err(ErrorCodeView::OperationAlreadyInProgress)))
    } else if spec_any_bound(b.bindings, instance_id) {
        (b, Err(spec_err(ErrorCodeView::BindingsExist)))
    } else if !b.synchronous && !accepts_incomplete {
        (b, Err(spec_err(ErrorCodeView::AsyncRequired)))
    } else if b.synchronous {
        let b2 = BrokerView {
            instances: b.instances.remove(instance_id),
            ops: b.ops.insert(key, spec_settled_op(OperationKind::Deprovision, true, now)),
            ..b
        };
        (b2, Ok(DeleteReplyView { status: 200, operation: None }))
    } else {
        let inst = b.instances[instance_id];
        let b2 = BrokerView {
            instances: b.instances.insert(
                instance_id,
                InstanceRecordView { state: InstanceState::Deprovisioning, ..inst },
            ),
            ops: b.ops.insert(key, spec_settled_op(OperationKind::Deprovision, false, now)),
            ..b
        };
        (b2, Ok(DeleteReplyView { status: 202, operation: Some(spec_token(OperationKind::Deprovision)) }))
    }
}


/// The body a binding presents: the field its shape demands populated with
/// the placeholder the provisioner capability fills in, the rest absent.
pub open spec fn spec_binding_body(shape: BindingType) -> BindingView {
    BindingView {
        metadata: None,
        credentials: if shape == BindingType::Credentials {
            Some(Seq::<(Seq<char>, Seq<char>)>::empty())
        } else {
            None
        },
        syslog_drain_url: if shape == BindingType::LogDrain {
            Some(Seq::<char>::empty())
        } else {
            None
        },
        route_service_url: if shape == BindingType::RouteServices {
            Some(Seq::<char>::empty())
        } else {
            None
        },
        volume_mounts: if shape == BindingType::VolumeServices {
            Some(
                VolumeMountView {
                    driver: Seq::empty(),
                    container_dir: Seq::empty(),
                    mode: VolumeMode::R,
                    device_type: DeviceType::Shared,
                    device: DeviceView { volume_id: Seq::empty(), mount_config: None },
                },
            )
        } else {
            None
        },
        endpoints: None,
    }
}

/// What an idempotent bind replay answers: the prior body, with 202 while
/// the bind is still in progress, and 200 once the binding has settled.
pub open spec fn spec_bind_replay(bind: BindingRecordView) -> BindReplyView {
    BindReplyView {
        status: if bind.state == BindingState::Binding {
            202
        } else {
            200
        },
        body: spec_binding_body(bind.shape),
    }
}

/// The record a fresh bind stores.
pub open spec fn spec_new_binding(
    req: BindingRequestBody,
    shape: BindingType,
    synchronous: bool,
) -> BindingRecordView {
    BindingRecordView {
        service_id: req.service_id@,
        plan_id: req.plan_id@,
        parameters: opt_kv_view(opt_kv(req.parameters)),
        shape,
        state: if synchronous {
            BindingState::Bound
        } else {
            BindingState::Binding
        },
    }
}

/// Bind: only against a known, active instance, with the request naming the
/// owning instance's own service and plan, whose catalog entry must be
/// bindable; replay and conflict detection as for provision; then acceptance.
pub open spec fn spec_bind(
    b: BrokerView,
    instance_id: Seq<char>,
    binding_id: Seq<char>,
    req: BindingRequestBody,
    accepts_incomplete: bool,
    now: u64,
) -> (BrokerView, Result<BindReplyView, OSBErrorView>) {
    let bkey = (instance_id, binding_id);
    let okey = ResourceKeyView::Binding { instance_id, binding_id };
    if !b.instances.contains_key(instance_id) {
        (b, Err(spec_err(ErrorCodeView::NotFound)))
    } else if b.instances[instance_id].service_id != req.service_id@
        || b.instances[instance_id].plan_id != req.plan_id@ {
        (b, Err(spec_err(ErrorCodeView::ServicePlanMismatch)))
    } else {
        match spec_catalog_find(
            b.catalog,
            b.instances[instance_id].service_id,
            b.instances[instance_id].plan_id,
        ) {
            None => (b, Err(spec_err(ErrorCodeView::CatalogEntryNotFound))),
            Some(entry) => if !entry.bindable {
                (b, Err(spec_err(ErrorCodeView::NotBindable)))
            } else if b.instances[instance_id].state != InstanceState::Active {
                (b, Err(spec_err(ErrorCodeView::OperationAlreadyInProgress)))
            } else if b.bindings.contains_key(bkey) {
                let bind = b.bindings[bkey];
                if bind.service_id == req.service_id@ && bind.plan_id == req.plan_id@
                    && bind.parameters == opt_kv_view(opt_kv(req.parameters)) {
                    (b, Ok(spec_bind_replay(bind)))
                } else {
                    (b, Err(spec_err(ErrorCodeView::BindingAlreadyExists)))
                }
            } else if spec_in_progress(b.ops, okey) {
                (b, Err(spec_err(ErrorCodeView::OperationAlreadyInProgress)))
            } else if !b.synchronous && !accepts_incomplete {
                (b, Err(spec_err(ErrorCodeView::AsyncRequired)))
            } else {
                let status: u16 = if b.synchronous {
                    201
                } else {
                    202
                };
                let b2 = BrokerView {
                    bindings: b.bindings.insert(
                        bkey,
                        spec_new_binding(req, entry.shape, b.synchronous),
                    ),
                    ops: b.ops.insert(
                        okey,
                        spec_settled_op(OperationKind::Bind, b.synchronous, now),
                    ),
                    ..b
                };
                (b2, Ok(BindReplyView { status, body: spec_binding_body(entry.shape) }))
            },
        }
    }
}

/// Fetch of a binding: the stored shape's body, whatever its lifecycle state.
pub open spec fn spec_fetch_binding(
    b: BrokerView,
    instance_id: Seq<char>,
    binding_id: Seq<char>,
) -> Result<BindingView, OSBErrorView> {
    let bkey = (instance_id, binding_id);
    if b.bindings.contains_key(bkey) {
        Ok(spec_binding_body(b.bindings[bkey].shape))
    } else {
        Err(spec_err(ErrorCodeView::NotFound))
    }
}

/// Unbind: already-absent bindings answer as already gone; otherwise
/// acceptance, synchronous or asynchronous.
pub open spec fn spec_unbind(
    b: BrokerView,
    instance_id: Seq<char>,
    binding_id: Seq<char>,
    accepts_incomplete: bool,
    now: u64,
) -> (BrokerView, Result<DeleteReplyView, OSBErrorView>) {
    let bkey = (instance_id, binding_id);
    let okey = ResourceKeyView::Binding { instance_id, binding_id };
    if !b.bindings.contains_key(bkey) {
        (b, Ok(DeleteReplyView { status: 410, operation: None }))
    } else if spec_in_progress(b.ops, okey) {
        (b, Err(spec_err(ErrorCodeView::OperationAlreadyInProgress)))
    } else if !b.synchronous && !accepts_incomplete {
        (b, Err(spec_err(ErrorCodeView::AsyncRequired)))
    } else if b.synchronous {
        let b2 = BrokerView {
            bindings: b.bindings.remove(bkey),
            ops: b.ops.insert(okey, spec_settled_op(OperationKind::Unbind, true, now)),
            ..b
        };
        (b2, Ok(DeleteReplyView { status: 200, operation: None }))
    } else {
        let bind = b.bindings[bkey];
        let b2 = BrokerView {
            bindings: b.bindings.insert(
                bkey,
                BindingRecordView { state: BindingState::Unbinding, ..bind },
            ),
            ops: b.ops.insert(okey, spec_settled_op(OperationKind::Unbind, false, now)),
            ..b
        };
        (b2, Ok(DeleteReplyView { status: 202, operation: Some(spec_token(OperationKind::Unbind)) }))
    }
}


/// Polling an instance: the current operation projected onto the wire shape;
/// safe-retry flags are surfaced only from a failed operation.
pub open spec fn spec_poll_instance(b: BrokerView, instance_id: Seq<char>) -> Result<
    ServiceInstanceLastOpView,
    OSBErrorView,
> {
    let key = ResourceKeyView::Instance { instance_id };
    if b.ops.contains_key(key) {
        let op = b.ops[key];
        Ok(
            ServiceInstanceLastOpView {
                state: op.state,
                description: Some(op.description),
                instance_usable: if op.state == LastOperationState::Failed {
                    Some(op.instance_usable)
                } else {
                    None
                },
                update_repeatable: if op.state == LastOperationState::Failed {
                    Some(op.update_repeatable)
                } else {
                    None
                },
            },
        )
    } else {
        Err(spec_err(ErrorCodeView::NoActiveOperation))
    }
}

/// Polling a binding: the current operation's state and description.
pub open spec fn spec_poll_binding(
    b: BrokerView,
    instance_id: Seq<char>,
    binding_id: Seq<char>,
) -> Result<ServiceBindingLastOpView, OSBErrorView> {
    let key = ResourceKeyView::Binding { instance_id, binding_id };
    if b.ops.contains_key(key) {
        let op = b.ops[key];
        Ok(ServiceBindingLastOpView { state: op.state, description: Some(op.description) })
    } else {
        Err(spec_err(ErrorCodeView::NoActiveOperation))
    }
}

/// The state an external completion signal leaves the broker in, given that
/// an operation is in progress on the instance.  A failed provision removes
/// the record; a finished deprovision removes it on success and revives it on
/// failure; updates return the instance to `Active` either way.
pub open spec fn spec_complete_instance_state(
    b: BrokerView,
    instance_id: Seq<char>,
    succeeded: bool,
    instance_usable: bool,
    update_repeatable: bool,
) -> BrokerView {
    let key = ResourceKeyView::Instance { instance_id };
    let op = b.ops[key];
    let instances2 = if !b.instances.contains_key(instance_id) {
        b.instances
    } else {
        let inst = b.instances[instance_id];
        match op.kind {
            OperationKind::Provision => if succeeded {
                b.instances.insert(
                    instance_id,
                    InstanceRecordView { state: InstanceState::Active, ..inst },
                )
            } else {
                b.instances.remove(instance_id)
            },
            OperationKind::Update => b.instances.insert(
                instance_id,
                InstanceRecordView { state: InstanceState::Active, ..inst },
            ),
            OperationKind::Deprovision => if succeeded {
                b.instances.remove(instance_id)
            } else {
                b.instances.insert(
                    instance_id,
                    InstanceRecordView { state: InstanceState::Active, ..inst },
                )
            },
            _ => b.instances,
        }
    };
    BrokerView {
        instances: instances2,
        ops: b.ops.insert(
            key,
            spec_completed_op(op, succeeded, instance_usable, update_repeatable),
        ),
        ..b
    }
}

/// The state an external completion signal leaves the broker in, given that
/// an operation is in progress on the binding.
pub open spec fn spec_complete_binding_state(
    b: BrokerView,
    instance_id: Seq<char>,
    binding_id: Seq<char>,
    succeeded: bool,
) -> BrokerView {
    let bkey = (instance_id, binding_id);
    let okey = ResourceKeyView::Binding { instance_id, binding_id };
    let op = b.ops[okey];
    let bindings2 = if !b.bindings.contains_key(bkey) {
        b.bindings
    } else {
        let bind = b.bindings[bkey];
        match op.kind {
            OperationKind::Bind => if succeeded {
                b.bindings.insert(bkey, BindingRecordView { state: BindingState::Bound, ..bind })
            } else {
                b.bindings.remove(bkey)
            },
            OperationKind::Unbind => if succeeded {
                b.bindings.remove(bkey)
            } else {
                b.bindings.insert(bkey, BindingRecordView { state: BindingState::Bound, ..bind })
            },
            _ => b.bindings,
        }
    };
    BrokerView {
        bindings: bindings2,
        ops: b.ops.insert(okey, spec_completed_op(op, succeeded, true, true)),
        ..b
    }
}

/// Fetch: the stored record's identity, whatever its lifecycle state.
pub open spec fn spec_fetch_instance(b: BrokerView, instance_id: Seq<char>) -> Result<
    ServiceIstanceView,
    OSBErrorView,
> {
    if b.instances.contains_key(instance_id) {
        let inst = b.instances[instance_id];
        Ok(
            ServiceIstanceView {
                service_id: Some(inst.service_id),
                plan_id: Some(inst.plan_id),
                dashboard_url: inst.dashboard_url,
                operation: None,
                metadata: None,
            },
        )
    } else {
        Err(spec_err(ErrorCodeView::NotFound))
    }
}


/// Builds the body a binding's shape presents.
fn binding_body(shape: BindingType) -> (r: Binding)
    ensures
        r@ == spec_binding_body(shape),
{
    let r = Binding {
        metadata: None,
        credentials: if shape == BindingType::Credentials {
            Some(Vec::new())
        } else {
            None
        },
        syslog_drain_url: if shape == BindingType::LogDrain {
            Some(String::new())
        } else {
            None
        },
        route_service_url: if shape == BindingType::RouteServices {
            Some(String::new())
        } else {
            None
        },
        volume_mounts: if shape == BindingType::VolumeServices {
            Some(
                VolumeMount {
                    driver: String::new(),
                    container_dir: String::new(),
                    mode: VolumeMode::R,
                    device_type: DeviceType::Shared,
                    device: Device { volume_id: String::new(), mount_config: None },
                },
            )
        } else {
            None
        },
        endpoints: None,
    };
    proof {
        assert(kv_view(Seq::<(String, String)>::empty()) =~= Seq::<(
            Seq<char>,
            Seq<char>,
        )>::empty());
    }
    r
}

/// The lifecycle engine: the catalog it validates against, the stores it
/// owns, and whether its provisioner completes work synchronously.
pub struct Broker {
    pub catalog: Catalog,
    pub synchronous: bool,
    store: ResourceStore,
    tracker: OperationTracker,
}

impl View for Broker {
    type V = BrokerView;

    closed spec fn view(&self) -> BrokerView {
        BrokerView {
            catalog: self.catalog@,
            synchronous: self.synchronous,
            instances: self.store@.instances,
            bindings: self.store@.bindings,
            ops: self.tracker@,
        }
    }
}

impl Broker {
    pub closed spec fn wf(&self) -> bool {
        self.store.wf() && self.tracker.wf()
    }

    /// A broker over the given catalog with empty stores.
    pub fn new(catalog: Catalog, synchronous: bool) -> (r: Broker)
        ensures
            r.wf(),
            r@.catalog == catalog@,
            r@.synchronous == synchronous,
            r@.instances == Map::<Seq<char>, InstanceRecordView>::empty(),
            r@.bindings == Map::<(Seq<char>, Seq<char>), BindingRecordView>::empty(),
            r@.ops == Map::<ResourceKeyView, OperationView>::empty(),
    {
        Broker {
            catalog,
            synchronous,
            store: ResourceStore::new(),
            tracker: OperationTracker::new(),
        }
    }

    /// Provisions an instance, or replays or refuses, as `spec_provision`
    /// says.
    pub fn provision(
        &mut self,
        instance_id: &String,
        params: &ProvisionParams,
        req: &ServiceInstanceRequestBody,
        now: u64,
    ) -> (r: Result<ProvisionReply, OSBError>)
        requires
            old(self).wf(),
        ensures
            final(self).wf(),
            ({
                let (s2, res) = spec_provision(
                    old(self)@,
                    instance_id@,
                    *req,
                    spec_ai(params.accepts_incomplete),
                    now,
                );
                final(self)@ == s2 && res_view(r) == res
            }),
    {
        let accepts_incomplete = ai(&params.accepts_incomplete);
        match self.catalog.find(&req.service_id, &req.plan_id) {
            None => {
                return Err(
                    OSBError::new(
                        ErrorCode::CatalogEntryNotFound,
                        "service or plan not in catalog".to_owned(),
                    ),
                );
            },
            Some(_) => {},
        }
        match self.store.instance_get(instance_id) {
            Some(rec) => {
                let same = rec.service_id == req.service_id && rec.plan_id == req.plan_id
                    && kv_matches_opt(&rec.parameters, &req.parameters);
                if same {
                    let provisioning = rec.state == InstanceState::Provisioning;
                    let reply = ProvisionReply {
                        status: if provisioning {
                            202
                        } else {
                            200
                        },
                        body: CreatedServiceIstance {
                            dashboard_url: clone_opt_string(&rec.dashboard_url),
                            operation: if provisioning {
                                Some(token_of(OperationKind::Provision))
                            } else {
                                None
                            },
                            metadata: None,
                        },
                    };
                    return Ok(reply);
                } else {
                    return Err(
                        OSBError::new(
                            ErrorCode::InstanceAlreadyExists,
                            "instance exists with different attributes".to_owned(),
                        ),
                    );
                }
            },
            None => {},
        }
        let key = ResourceKey::Instance { instance_id: instance_id.clone() };
        let in_prog = match self.tracker.current(&key) {
            Some(op) => op.state == LastOperationState::InProgress,
            None => false,
        };
        if in_prog {
            return Err(
                OSBError::new(
                    ErrorCode::OperationAlreadyInProgress,
                    "an operation is already in progress".to_owned(),
                ),
            );
        }
        if !self.synchronous && !accepts_incomplete {
            return Err(
                OSBError::new(
                    ErrorCode::AsyncRequired,
                    "this broker only provisions asynchronously".to_owned(),
                ),
            );
        }
        let status: u16 = if self.synchronous {
            201
        } else {
            202
        };
        let record = InstanceRecord {
            service_id: req.service_id.clone(),
            plan_id: req.plan_id.clone(),
            parameters: kv_of_opt(&req.parameters),
            context: kv_of_opt(&req.context),
            maintenance_info_version: match &req.maintenance_info {
                Some(mi) => Some(mi.version.clone()),
                None => None,
            },
            dashboard_url: None,
            state: if self.synchronous {
                InstanceState::Active
            } else {
                InstanceState::Provisioning
            },
            revision: 0,
        };
        self.store.instance_put(instance_id.clone(), record);
        let _started = self.tracker.begin(
            key,
            OperationKind::Provision,
            token_of(OperationKind::Provision),
            now,
        );
        if self.synchronous {
            let key2 = ResourceKey::Instance { instance_id: instance_id.clone() };
            let _completed = self.tracker.complete(key2, true, true, true);
            proof {
                let gkey = ResourceKeyView::Instance { instance_id: instance_id@ };
                assert(self@.ops =~= old(self)@.ops.insert(
                    gkey,
                    spec_settled_op(OperationKind::Provision, old(self)@.synchronous, now),
                ));
            }
        }
        let reply = ProvisionReply {
            status,
            body: CreatedServiceIstance {
                dashboard_url: None,
                operation: if self.synchronous {
                    None
                } else {
                    Some(token_of(OperationKind::Provision))
                },
                metadata: None,
            },
        };
        proof {
            let (s2, res) = spec_provision(
                old(self)@,
                instance_id@,
                *req,
                spec_ai(params.accepts_incomplete),
                now,
            );
            assert(self@.instances == s2.instances);
            assert(self@.ops == s2.ops);
            assert(self@ =~= s2);
        }
        Ok(reply)
    }


    /// Updates an instance, as `spec_update` says.  The request's
    /// `service_id` and `previous_values` are accepted for wire compatibility;
    /// the stored service identity, which is immutable, governs the lookup.
    pub fn update(
        &mut self,
        instance_id: &String,
        params: &ProvisionParams,
        req: &ServiceUpdateRequestBody,
        now: u64,
    ) -> (r: Result<ProvisionReply, OSBError>)
        requires
            old(self).wf(),
        ensures
            final(self).wf(),
            ({
                let (s2, res) = spec_update(
                    old(self)@,
                    instance_id@,
                    *req,
                    spec_ai(params.accepts_incomplete),
                    now,
                );
                final(self)@ == s2 && res_view(r) == res
            }),
    {
        let accepts_incomplete = ai(&params.accepts_incomplete);
        let rec0 = match self.store.instance_get(instance_id) {
            None => {
                return Err(OSBError::new(ErrorCode::NotFound, "no such instance".to_owned()));
            },
            Some(rec) => rec.duplicate(),
        };
        let key = ResourceKey::Instance { instance_id: instance_id.clone() };
        let in_prog = match self.tracker.current(&key) {
            Some(op) => op.state == LastOperationState::InProgress,
            None => false,
        };
        if in_prog {
            return Err(
                OSBError::new(
                    ErrorCode::OperationAlreadyInProgress,
                    "an operation is already in progress".to_owned(),
                ),
            );
        }
        let target_plan: String = match &req.plan_id {
            Some(p) => p.clone(),
            None => rec0.plan_id.clone(),
        };
        let entry = match self.catalog.find(&rec0.service_id, &target_plan) {
            None => {
                return Err(
                    OSBError::new(
                        ErrorCode::CatalogEntryNotFound,
                        "target plan not in catalog".to_owned(),
                    ),
                );
            },
            Some(e) => e,
        };
        if !(target_plan == rec0.plan_id) && !entry.plan_updateable {
            return Err(
                OSBError::new(
                    ErrorCode::PlanNotUpdateable,
                    "the target plan does not allow plan changes".to_owned(),
                ),
            );
        }
        match &req.maintenance_info {
            Some(mi) => {
                let matches = match &entry.maintenance_info_version {
                    Some(v) => mi.version == *v,
                    None => false,
                };
                if !matches {
                    return Err(
                        OSBError::new(
                            ErrorCode::MaintenanceInfoConflict,
                            "maintenance_info.version does not match the catalog".to_owned(),
                        ),
                    );
                }
            },
            None => {},
        }
        if !self.synchronous && !accepts_incomplete {
            return Err(
                OSBError::new(
                    ErrorCode::AsyncRequired,
                    "this broker only updates asynchronously".to_owned(),
                ),
            );
        }
        let status: u16 = if self.synchronous {
            200
        } else {
            202
        };
        let expected_revision = rec0.revision;
        let next_revision: u64 = if rec0.revision == u64::MAX {
            0
        } else {
            rec0.revision + 1
        };
        let record = InstanceRecord {
            service_id: rec0.service_id,
            plan_id: target_plan,
            parameters: match &req.parameters {
                Some(p) => crate::kv::kv_clone(p),
                None => rec0.parameters,
            },
            context: match &req.context {
                Some(c) => crate::kv::kv_clone(c),
                None => rec0.context,
            },
            maintenance_info_version: match &req.maintenance_info {
                Some(mi) => Some(mi.version.clone()),
                None => rec0.maintenance_info_version,
            },
            dashboard_url: rec0.dashboard_url,
            state: if self.synchronous {
                InstanceState::Active
            } else {
                InstanceState::Updating
            },
            revision: next_revision,
        };
        let swapped = self.store.instance_cas(instance_id.clone(), expected_revision, record);
        proof {
            assert(swapped);
        }
        let _started = self.tracker.begin(
            key,
            OperationKind::Update,
            token_of(OperationKind::Update),
            now,
        );
        if self.synchronous {
            let key2 = ResourceKey::Instance { instance_id: instance_id.clone() };
            let _completed = self.tracker.complete(key2, true, true, true);
            proof {
                let gkey = ResourceKeyView::Instance { instance_id: instance_id@ };
                assert(self@.ops =~= old(self)@.ops.insert(
                    gkey,
                    spec_settled_op(OperationKind::Update, old(self)@.synchronous, now),
                ));
            }
        }
        let reply = ProvisionReply {
            status,
            body: CreatedServiceIstance {
                dashboard_url: None,
                operation: if self.synchronous {
                    None
                } else {
                    Some(token_of(OperationKind::Update))
                },
                metadata: None,
            },
        };
        proof {
            let (s2, res) = spec_update(
                old(self)@,
                instance_id@,
                *req,
                spec_ai(params.accepts_incomplete),
                now,
            );
            assert(self@.instances == s2.instances);
            assert(self@.ops == s2.ops);
            assert(self@ =~= s2);
        }
        Ok(reply)
    }

    /// Deprovisions an instance, as `spec_deprovision` says.  The query's
    /// `service_id` and `plan_id` are accepted for wire compatibility and do
    /// not affect the result.
    pub fn deprovision(
        &mut self,
        instance_id: &String,
        params: &ServiceDeleteParams,
        now: u64,
    ) -> (r: Result<DeleteReply, OSBError>)
        requires
            old(self).wf(),
        ensures
            final(self).wf(),
            ({
                let (s2, res) = spec_deprovision(
                    old(self)@,
                    instance_id@,
                    spec_ai(params.accepts_incomplete),
                    now,
                );
                final(self)@ == s2 && res_view(r) == res
            }),
    {
        let accepts_incomplete = ai(&params.accepts_incomplete);
        let rec0 = match self.store.instance_get(instance_id) {
            None => {
                return Ok(DeleteReply { status: 410, operation: None });
            },
            Some(rec) => rec.duplicate(),
        };
        let key = ResourceKey::Instance { instance_id: instance_id.clone() };
        let in_prog = match self.tracker.current(&key) {
            Some(op) => op.state == LastOperationState::InProgress,
            None => false,
        };
        if in_prog {
            return Err(
                OSBError::new(
                    ErrorCode::OperationAlreadyInProgress,
                    "an operation is already in progress".to_owned(),
                ),
            );
        }
        if self.store.any_bound_binding(instance_id) {
            return Err(
                OSBError::new(
                    ErrorCode::BindingsExist,
                    "bindings still exist under this instance".to_owned(),
                ),
            );
        }
        if !self.synchronous && !accepts_incomplete {
            return Err(
                OSBError::new(
                    ErrorCode::AsyncRequired,
                    "this broker only deprovisions asynchronously".to_owned(),
                ),
            );
        }
        if self.synchronous {
            self.store.instance_delete(instance_id);
            let _started = self.tracker.begin(
                key,
                OperationKind::Deprovision,
                token_of(OperationKind::Deprovision),
                now,
            );
            let key2 = ResourceKey::Instance { instance_id: instance_id.clone() };
            let _completed = self.tracker.complete(key2, true, true, true);
            proof {
                let gkey = ResourceKeyView::Instance { instance_id: instance_id@ };
                assert(self@.ops =~= old(self)@.ops.insert(
                    gkey,
                    spec_settled_op(OperationKind::Deprovision, true, now),
                ));
                let (s2, res) = spec_deprovision(
                    old(self)@,
                    instance_id@,
                    spec_ai(params.accepts_incomplete),
                    now,
                );
                assert(self@ =~= s2);
            }
            Ok(DeleteReply { status: 200, operation: None })
        } else {
            let mut rec2 = rec0;
            rec2.state = InstanceState::Deprovisioning;
            self.store.instance_put(instance_id.clone(), rec2);
            let _started = self.tracker.begin(
                key,
                OperationKind::Deprovision,
                token_of(OperationKind::Deprovision),
                now,
            );
            proof {
                let (s2, res) = spec_deprovision(
                    old(self)@,
                    instance_id@,
                    spec_ai(params.accepts_incomplete),
                    now,
                );
                assert(self@.instances == s2.instances);
                assert(self@.ops == s2.ops);
                assert(self@ =~= s2);
            }
            Ok(DeleteReply { status: 202, operation: Some(token_of(OperationKind::Deprovision)) })
        }
    }


    /// Binds against an instance, as `spec_bind` says: the request must name
    /// the owning instance's own service and plan.
    pub fn bind(
        &mut self,
        instance_id: &String,
        binding_id: &String,
        params: &crate::binding::ProvisionParams,
        req: &BindingRequestBody,
        now: u64,
    ) -> (r: Result<BindReply, OSBError>)
        requires
            old(self).wf(),
        ensures
            final(self).wf(),
            ({
                let (s2, res) = spec_bind(
                    old(self)@,
                    instance_id@,
                    binding_id@,
                    *req,
                    spec_ai(params.accepts_incomplete),
                    now,
                );
                final(self)@ == s2 && res_view(r) == res
            }),
    {
        let accepts_incomplete = ai(&params.accepts_incomplete);
        let (inst_state, inst_service_id, inst_plan_id) = match self.store.instance_get(
            instance_id,
        ) {
            None => {
                return Err(OSBError::new(ErrorCode::NotFound, "no such instance".to_owned()));
            },
            Some(rec) => (rec.state, rec.service_id.clone(), rec.plan_id.clone()),
        };
        if !(inst_service_id == req.service_id) || !(inst_plan_id == req.plan_id) {
            return Err(
                OSBError::new(
                    ErrorCode::ServicePlanMismatch,
                    "service_id or plan_id does not name the owning instance".to_owned(),
                ),
            );
        }
        let entry = match self.catalog.find(&inst_service_id, &inst_plan_id) {
            None => {
                return Err(
                    OSBError::new(
                        ErrorCode::CatalogEntryNotFound,
                        "the instance's service or plan is not in the catalog".to_owned(),
                    ),
                );
            },
            Some(e) => e,
        };
        if !entry.bindable {
            return Err(
                OSBError::new(ErrorCode::NotBindable, "this plan is not bindable".to_owned()),
            );
        }
        if !(inst_state == InstanceState::Active) {
            return Err(
                OSBError::new(
                    ErrorCode::OperationAlreadyInProgress,
                    "the instance is not active".to_owned(),
                ),
            );
        }
        let bkey = BindingKey {
            instance_id: instance_id.clone(),
            binding_id: binding_id.clone(),
        };
        match self.store.binding_get(&bkey) {
            Some(bind) => {
                let same = bind.service_id == req.service_id && bind.plan_id == req.plan_id
                    && kv_matches_opt(&bind.parameters, &req.parameters);
                if same {
                    let status: u16 = if bind.state == BindingState::Binding {
                        202
                    } else {
                        200
                    };
                    let shape = bind.shape;
                    return Ok(BindReply { status, body: binding_body(shape) });
                } else {
                    return Err(
                        OSBError::new(
                            ErrorCode::BindingAlreadyExists,
                            "binding exists with different attributes".to_owned(),
                        ),
                    );
                }
            },
            None => {},
        }
        let okey = ResourceKey::Binding {
            instance_id: instance_id.clone(),
            binding_id: binding_id.clone(),
        };
        let in_prog = match self.tracker.current(&okey) {
            Some(op) => op.state == LastOperationState::InProgress,
            None => false,
        };
        if in_prog {
            return Err(
                OSBError::new(
                    ErrorCode::OperationAlreadyInProgress,
                    "an operation is already in progress".to_owned(),
                ),
            );
        }
        if !self.synchronous && !accepts_incomplete {
            return Err(
                OSBError::new(
                    ErrorCode::AsyncRequired,
                    "this broker only binds asynchronously".to_owned(),
                ),
            );
        }
        let status: u16 = if self.synchronous {
            201
        } else {
            202
        };
        let record = BindingRecord {
            service_id: req.service_id.clone(),
            plan_id: req.plan_id.clone(),
            parameters: kv_of_opt(&req.parameters),
            shape: entry.shape,
            state: if self.synchronous {
                BindingState::Bound
            } else {
                BindingState::Binding
            },
        };
        self.store.binding_put(bkey, record);
        let _started = self.tracker.begin(
            okey,
            OperationKind::Bind,
            token_of(OperationKind::Bind),
            now,
        );
        if self.synchronous {
            let okey2 = ResourceKey::Binding {
                instance_id: instance_id.clone(),
                binding_id: binding_id.clone(),
            };
            let _completed = self.tracker.complete(okey2, true, true, true);
            proof {
                let gkey = ResourceKeyView::Binding {
                    instance_id: instance_id@,
                    binding_id: binding_id@,
                };
                assert(self@.ops =~= old(self)@.ops.insert(
                    gkey,
                    spec_settled_op(OperationKind::Bind, old(self)@.synchronous, now),
                ));
            }
        }
        let reply = BindReply { status, body: binding_body(entry.shape) };
        proof {
            let (s2, res) = spec_bind(
                old(self)@,
                instance_id@,
                binding_id@,
                *req,
                spec_ai(params.accepts_incomplete),
                now,
            );
            assert(self@.bindings == s2.bindings);
            assert(self@.ops == s2.ops);
            assert(self@ =~= s2);
        }
        Ok(reply)
    }

    /// Fetches a binding; unknown keys are `NotFound`.  The optional query
    /// parameters are accepted for wire compatibility and do not affect the
    /// result.
    pub fn fetch_binding(
        &self,
        instance_id: &String,
        binding_id: &String,
        _params: &crate::binding::BindingFetchParams,
    ) -> (r: Result<Binding, OSBError>)
        requires
            self.wf(),
        ensures
            res_view(r) == spec_fetch_binding(self@, instance_id@, binding_id@),
    {
        let bkey = BindingKey {
            instance_id: instance_id.clone(),
            binding_id: binding_id.clone(),
        };
        match self.store.binding_get(&bkey) {
            Some(rec) => {
                let shape = rec.shape;
                Ok(binding_body(shape))
            },
            None => Err(OSBError::new(ErrorCode::NotFound, "no such binding".to_owned())),
        }
    }

    /// Unbinds, as `spec_unbind` says.  The query's `service_id` and
    /// `plan_id` are accepted for wire compatibility and do not affect the
    /// result.
    pub fn unbind(
        &mut self,
        instance_id: &String,
        binding_id: &String,
        params: &crate::binding::BindingDeleteParams,
        now: u64,
    ) -> (r: Result<DeleteReply, OSBError>)
        requires
            old(self).wf(),
        ensures
            final(self).wf(),
            ({
                let (s2, res) = spec_unbind(
                    old(self)@,
                    instance_id@,
                    binding_id@,
                    spec_ai(params.accepts_incomplete),
                    now,
                );
                final(self)@ == s2 && res_view(r) == res
            }),
    {
        let accepts_incomplete = ai(&params.accepts_incomplete);
        let bkey = BindingKey {
            instance_id: instance_id.clone(),
            binding_id: binding_id.clone(),
        };
        let rec0 = match self.store.binding_get(&bkey) {
            None => {
                return Ok(DeleteReply { status: 410, operation: None });
            },
            Some(rec) => rec.duplicate(),
        };
        let okey = ResourceKey::Binding {
            instance_id: instance_id.clone(),
            binding_id: binding_id.clone(),
        };
        let in_prog = match self.tracker.current(&okey) {
            Some(op) => op.state == LastOperationState::InProgress,
            None => false,
        };
        if in_prog {
            return Err(
                OSBError::new(
                    ErrorCode::OperationAlreadyInProgress,
                    "an operation is already in progress".to_owned(),
                ),
            );
        }
        if !self.synchronous && !accepts_incomplete {
            return Err(
                OSBError::new(
                    ErrorCode::AsyncRequired,
                    "this broker only unbinds asynchronously".to_owned(),
                ),
            );
        }
        if self.synchronous {
            self.store.binding_delete(&bkey);
            let _started = self.tracker.begin(
                okey,
                OperationKind::Unbind,
                token_of(OperationKind::Unbind),
                now,
            );
            let okey2 = ResourceKey::Binding {
                instance_id: instance_id.clone(),
                binding_id: binding_id.clone(),
            };
            let _completed = self.tracker.complete(okey2, true, true, true);
            proof {
                let gkey = ResourceKeyView::Binding {
                    instance_id: instance_id@,
                    binding_id: binding_id@,
                };
                assert(self@.ops =~= old(self)@.ops.insert(
                    gkey,
                    spec_settled_op(OperationKind::Unbind, true, now),
                ));
                let (s2, res) = spec_unbind(
                    old(self)@,
                    instance_id@,
                    binding_id@,
                    spec_ai(params.accepts_incomplete),
                    now,
                );
                assert(self@ =~= s2);
            }
            Ok(DeleteReply { status: 200, operation: None })
        } else {
            let mut rec2 = rec0;
            rec2.state = BindingState::Unbinding;
            self.store.binding_put(bkey, rec2);
            let _started = self.tracker.begin(
                okey,
                OperationKind::Unbind,
                token_of(OperationKind::Unbind),
                now,
            );
            proof {
                let (s2, res) = spec_unbind(
                    old(self)@,
                    instance_id@,
                    binding_id@,
                    spec_ai(params.accepts_incomplete),
                    now,
                );
                assert(self@.bindings == s2.bindings);
                assert(self@.ops == s2.ops);
                assert(self@ =~= s2);
            }
            Ok(DeleteReply { status: 202, operation: Some(token_of(OperationKind::Unbind)) })
        }
    }


    /// Answers an instance poll; it never mutates state.
    pub fn poll_instance(&self, instance_id: &String, _params: &LastOperationParams) -> (r:
        Result<ServiceInstanceLastOp, OSBError>)
        requires
            self.wf(),
        ensures
            res_view(r) == spec_poll_instance(self@, instance_id@),
    {
        let key = ResourceKey::Instance { instance_id: instance_id.clone() };
        match self.tracker.current(&key) {
            Some(op) => {
                let failed = op.state == LastOperationState::Failed;
                Ok(
                    ServiceInstanceLastOp {
                        state: op.state,
                        description: Some(op.description.clone()),
                        instance_usable: if failed {
                            Some(op.instance_usable)
                        } else {
                            None
                        },
                        update_repeatable: if failed {
                            Some(op.update_repeatable)
                        } else {
                            None
                        },
                    },
                )
            },
            None => Err(
                OSBError::new(
                    ErrorCode::NoActiveOperation,
                    "no operation recorded for this instance".to_owned(),
                ),
            ),
        }
    }

    /// Answers a binding poll; it never mutates state.
    pub fn poll_binding(
        &self,
        instance_id: &String,
        binding_id: &String,
        _params: &LastOperationParams,
    ) -> (r: Result<ServiceBindingLastOp, OSBError>)
        requires
            self.wf(),
        ensures
            res_view(r) == spec_poll_binding(self@, instance_id@, binding_id@),
    {
        let key = ResourceKey::Binding {
            instance_id: instance_id.clone(),
            binding_id: binding_id.clone(),
        };
        match self.tracker.current(&key) {
            Some(op) => Ok(
                ServiceBindingLastOp {
                    state: op.state,
                    description: Some(op.description.clone()),
                },
            ),
            None => Err(
                OSBError::new(
                    ErrorCode::NoActiveOperation,
                    "no operation recorded for this binding".to_owned(),
                ),
            ),
        }
    }

    /// The provisioner's completion signal for an instance operation; fails
    /// with `NoActiveOperation` when none is in progress.
    pub fn complete_instance_operation(
        &mut self,
        instance_id: &String,
        succeeded: bool,
        instance_usable: bool,
        update_repeatable: bool,
    ) -> (r: Result<(), OSBError>)
        requires
            old(self).wf(),
        ensures
            final(self).wf(),
            ({
                let key = ResourceKeyView::Instance { instance_id: instance_id@ };
                if spec_in_progress(old(self)@.ops, key) {
                    r is Ok && final(self)@ == spec_complete_instance_state(
                        old(self)@,
                        instance_id@,
                        succeeded,
                        instance_usable,
                        update_repeatable,
                    )
                } else {
                    final(self)@ == old(self)@ && match r {
                        Ok(_) => false,
                        Err(e) => e@ == spec_err(ErrorCodeView::NoActiveOperation),
                    }
                }
            }),
    {
        let key = ResourceKey::Instance { instance_id: instance_id.clone() };
        let kind = match self.tracker.current(&key) {
            Some(op) => {
                if op.state == LastOperationState::InProgress {
                    Some(op.kind)
                } else {
                    None
                }
            },
            None => None,
        };
        let kind = match kind {
            None => {
                return Err(
                    OSBError::new(
                        ErrorCode::NoActiveOperation,
                        "no operation is in progress for this instance".to_owned(),
                    ),
                );
            },
            Some(k) => k,
        };
        let _completed = self.tracker.complete(
            key,
            succeeded,
            instance_usable,
            update_repeatable,
        );
        match kind {
            OperationKind::Provision => {
                if succeeded {
                    self.set_instance_active(instance_id);
                } else {
                    self.store.instance_delete(instance_id);
                }
            },
            OperationKind::Update => {
                self.set_instance_active(instance_id);
            },
            OperationKind::Deprovision => {
                if succeeded {
                    self.store.instance_delete(instance_id);
                } else {
                    self.set_instance_active(instance_id);
                }
            },
            _ => {},
        }
        proof {
            let s2 = spec_complete_instance_state(
                old(self)@,
                instance_id@,
                succeeded,
                instance_usable,
                update_repeatable,
            );
            if !old(self)@.instances.contains_key(instance_id@) {
                assert(self@.instances =~= s2.instances);
            }
            assert(self@ =~= s2);
        }
        Ok(())
    }

    /// The provisioner's completion signal for a binding operation; fails
    /// with `NoActiveOperation` when none is in progress.
    pub fn complete_binding_operation(
        &mut self,
        instance_id: &String,
        binding_id: &String,
        succeeded: bool,
    ) -> (r: Result<(), OSBError>)
        requires
            old(self).wf(),
        ensures
            final(self).wf(),
            ({
                let key = ResourceKeyView::Binding {
                    instance_id: instance_id@,
                    binding_id: binding_id@,
                };
                if spec_in_progress(old(self)@.ops, key) {
                    r is Ok && final(self)@ == spec_complete_binding_state(
                        old(self)@,
                        instance_id@,
                        binding_id@,
                        succeeded,
                    )
                } else {
                    final(self)@ == old(self)@ && match r {
                        Ok(_) => false,
                        Err(e) => e@ == spec_err(ErrorCodeView::NoActiveOperation),
                    }
                }
            }),
    {
        let key = ResourceKey::Binding {
            instance_id: instance_id.clone(),
            binding_id: binding_id.clone(),
        };
        let kind = match self.tracker.current(&key) {
            Some(op) => {
                if op.state == LastOperationState::InProgress {
                    Some(op.kind)
                } else {
                    None
                }
            },
            None => None,
        };
        let kind = match kind {
            None => {
                return Err(
                    OSBError::new(
                        ErrorCode::NoActiveOperation,
                        "no operation is in progress for this binding".to_owned(),
                    ),
                );
            },
            Some(k) => k,
        };
        let _completed = self.tracker.complete(key, succeeded, true, true);
        let bkey = BindingKey {
            instance_id: instance_id.clone(),
            binding_id: binding_id.clone(),
        };
        match kind {
            OperationKind::Bind => {
                if succeeded {
                    self.set_binding_bound(&bkey);
                } else {
                    self.store.binding_delete(&bkey);
                }
            },
            OperationKind::Unbind => {
                if succeeded {
                    self.store.binding_delete(&bkey);
                } else {
                    self.set_binding_bound(&bkey);
                }
            },
            _ => {},
        }
        proof {
            let s2 = spec_complete_binding_state(
                old(self)@,
                instance_id@,
                binding_id@,
                succeeded,
            );
            if !old(self)@.bindings.contains_key((instance_id@, binding_id@)) {
                assert(self@.bindings =~= s2.bindings);
            }
            assert(self@ =~= s2);
        }
        Ok(())
    }

    /// Returns a stored instance to `Active`; absent records are left alone.
    fn set_instance_active(&mut self, instance_id: &String)
        requires
            old(self).wf(),
        ensures
            final(self).wf(),
            final(self)@.ops == old(self)@.ops,
            final(self)@.bindings == old(self)@.bindings,
            final(self)@.catalog == old(self)@.catalog,
            final(self)@.synchronous == old(self)@.synchronous,
            final(self)@.instances == if old(self)@.instances.contains_key(instance_id@) {
                old(self)@.instances.insert(
                    instance_id@,
                    InstanceRecordView {
                        state: InstanceState::Active,
                        ..old(self)@.instances[instance_id@]
                    },
                )
            } else {
                old(self)@.instances
            },
    {
        let rec2 = match self.store.instance_get(instance_id) {
            Some(rec) => Some(rec.duplicate()),
            None => None,
        };
        match rec2 {
            Some(mut rec) => {
                rec.state = InstanceState::Active;
                self.store.instance_put(instance_id.clone(), rec);
            },
            None => {
                proof {
                    assert(self@.instances =~= old(self)@.instances);
                }
            },
        }
    }

    /// Returns a stored binding to `Bound`; absent records are left alone.
    fn set_binding_bound(&mut self, bkey: &BindingKey)
        requires
            old(self).wf(),
        ensures
            final(self).wf(),
            final(self)@.ops == old(self)@.ops,
            final(self)@.instances == old(self)@.instances,
            final(self)@.catalog == old(self)@.catalog,
            final(self)@.synchronous == old(self)@.synchronous,
            final(self)@.bindings == if old(self)@.bindings.contains_key(bkey@) {
                old(self)@.bindings.insert(
                    bkey@,
                    BindingRecordView {
                        state: BindingState::Bound,
                        ..old(self)@.bindings[bkey@]
                    },
                )
            } else {
                old(self)@.bindings
            },
    {
        let rec2 = match self.store.binding_get(bkey) {
            Some(rec) => Some(rec.duplicate()),
            None => None,
        };
        match rec2 {
            Some(mut rec) => {
                rec.state = BindingState::Bound;
                self.store.binding_put(
                    BindingKey {
                        instance_id: bkey.instance_id.clone(),
                        binding_id: bkey.binding_id.clone(),
                    },
                    rec,
                );
            },
            None => {
                proof {
                    assert(self@.bindings =~= old(self)@.bindings);
                }
            },
        }
    }

    /// Fetches an instance; unknown ids are `NotFound`.  The optional query
    /// parameters are accepted for wire compatibility and do not affect the
    /// result.
    pub fn fetch_instance(&self, instance_id: &String, _params: &ServiceFetchParams) -> (r:
        Result<ServiceIstance, OSBError>)
        requires
            self.wf(),
        ensures
            res_view(r) == spec_fetch_instance(self@, instance_id@),
    {
        match self.store.instance_get(instance_id) {
            Some(rec) => Ok(
                ServiceIstance {
                    service_id: Some(rec.service_id.clone()),
                    plan_id: Some(rec.plan_id.clone()),
                    dashboard_url: clone_opt_string(&rec.dashboard_url),
                    operation: None,
                    metadata: None,
                },
            ),
            None => Err(OSBError::new(ErrorCode::NotFound, "no such instance".to_owned())),
        }
    }
}

} // verus!
