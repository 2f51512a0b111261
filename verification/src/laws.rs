//! The engine's cross-call guarantees, proved once and for all over the
//! specification transitions of `engine`.

use vstd::prelude::*;
use crate::engine::{
    spec_complete_instance_state, spec_deprovision, spec_fetch_instance, spec_poll_instance,
    spec_provision, spec_update, BrokerView,
};
use crate::catalog::spec_catalog_find;
use crate::errors::{spec_err, spec_status_code, ErrorCodeView};
use crate::kv::{opt_kv, opt_kv_view};
use crate::polling::LastOperationState;
use crate::service::{ServiceInstanceRequestBody, ServiceUpdateRequestBody};
use crate::store::{spec_any_bound, InstanceState};
use crate::tracker::{spec_in_progress, ResourceKeyView};

verus! {

/// Any accepted provision, fresh or replayed, leaves a record that a fetch
/// answers with the request's own service and plan ids.
pub proof fn lemma_provision_then_fetch(
    b: BrokerView,
    instance_id: Seq<char>,
    req: ServiceInstanceRequestBody,
    accepts_incomplete: bool,
    now: u64,
)
    requires
        spec_provision(b, instance_id, req, accepts_incomplete, now).1 is Ok,
    ensures
        ({
            let b2 = spec_provision(b, instance_id, req, accepts_incomplete, now).0;
            match spec_fetch_instance(b2, instance_id) {
                Ok(body) => body.service_id == Some(req.service_id@) && body.plan_id == Some(
                    req.plan_id@,
                ),
                Err(_) => false,
            }
        }),
{
}

/// Replaying the identical provision changes nothing — in particular no
/// second operation record appears — and answers the same body.  The
/// replay's status is 200 once the create has completed and 202 while it is
/// still in progress, and every further identical replay answers exactly the
/// same result.
pub proof fn lemma_provision_idempotent(
    b: BrokerView,
    instance_id: Seq<char>,
    req: ServiceInstanceRequestBody,
    accepts_incomplete: bool,
    now: u64,
    now2: u64,
    now3: u64,
)
    requires
        spec_provision(b, instance_id, req, accepts_incomplete, now).1 is Ok,
    ensures
        ({
            let (b2, r1) = spec_provision(b, instance_id, req, accepts_incomplete, now);
            let (b3, r2) = spec_provision(b2, instance_id, req, accepts_incomplete, now2);
            b3 == b2 && match (r1, r2) {
                (Ok(first), Ok(second)) => first.body == second.body && second.status == (
                    if b2.instances[instance_id].state == InstanceState::Provisioning {
                        202u16
                    } else {
                        200u16
                    }),
                _ => false,
            } && spec_provision(b3, instance_id, req, accepts_incomplete, now3) == (b3, r2)
        }),
{
}

/// A second provision of the same instance id with different attributes is
/// refused as `InstanceAlreadyExists` and changes nothing.
pub proof fn lemma_provision_conflict(
    b: BrokerView,
    instance_id: Seq<char>,
    req1: ServiceInstanceRequestBody,
    req2: ServiceInstanceRequestBody,
    ai1: bool,
    ai2: bool,
    now: u64,
    now2: u64,
)
    requires
        spec_provision(b, instance_id, req1, ai1, now).1 is Ok,
        spec_catalog_find(b.catalog, req2.service_id@, req2.plan_id@) is Some,
        req2.service_id@ != req1.service_id@ || req2.plan_id@ != req1.plan_id@ || opt_kv_view(
            opt_kv(req2.parameters),
        ) != opt_kv_view(opt_kv(req1.parameters)),
    ensures
        ({
            let b2 = spec_provision(b, instance_id, req1, ai1, now).0;
            let (b3, r2) = spec_provision(b2, instance_id, req2, ai2, now2);
            b3 == b2 && r2 == Err::<crate::engine::ProvisionReplyView, _>(spec_err(ErrorCodeView::InstanceAlreadyExists))
        }),
{
}

/// Once an asynchronous update is under way, a deprovision of the same
/// instance is refused as `OperationAlreadyInProgress` and changes nothing.
pub proof fn lemma_update_excludes_deprovision(
    b: BrokerView,
    instance_id: Seq<char>,
    req: ServiceUpdateRequestBody,
    ai2: bool,
    now: u64,
    now2: u64,
)
    requires
        !b.synchronous,
        spec_update(b, instance_id, req, true, now).1 is Ok,
    ensures
        ({
            let b2 = spec_update(b, instance_id, req, true, now).0;
            let (b3, r) = spec_deprovision(b2, instance_id, ai2, now2);
            b3 == b2 && r == Err::<crate::engine::DeleteReplyView, _>(
                spec_err(ErrorCodeView::OperationAlreadyInProgress),
            )
        }),
{
}

/// Once an asynchronous deprovision is under way, an update of the same
/// instance is refused as `OperationAlreadyInProgress` and changes nothing.
pub proof fn lemma_deprovision_excludes_update(
    b: BrokerView,
    instance_id: Seq<char>,
    req: ServiceUpdateRequestBody,
    ai2: bool,
    now: u64,
    now2: u64,
)
    requires
        !b.synchronous,
        b.instances.contains_key(instance_id),
        spec_deprovision(b, instance_id, true, now).1 is Ok,
    ensures
        ({
            let b2 = spec_deprovision(b, instance_id, true, now).0;
            let (b3, r) = spec_update(b2, instance_id, req, ai2, now2);
            b3 == b2 && r == Err::<crate::engine::ProvisionReplyView, _>(
                spec_err(ErrorCodeView::OperationAlreadyInProgress),
            )
        }),
{
}

/// While any binding under the instance is still bound, deprovision is
/// refused as `BindingsExist` and changes nothing.
pub proof fn lemma_deprovision_blocked_by_binding(
    b: BrokerView,
    instance_id: Seq<char>,
    accepts_incomplete: bool,
    now: u64,
)
    requires
        b.instances.contains_key(instance_id),
        !spec_in_progress(b.ops, ResourceKeyView::Instance { instance_id }),
        spec_any_bound(b.bindings, instance_id),
    ensures
        ({
            let (b2, r) = spec_deprovision(b, instance_id, accepts_incomplete, now);
            b2 == b && r == Err::<crate::engine::DeleteReplyView, _>(spec_err(ErrorCodeView::BindingsExist))
        }),
{
}

/// With no binding still bound and no operation in progress, a deprovision
/// that may complete (synchronously, or with the client accepting
/// asynchronous completion) succeeds.
pub proof fn lemma_deprovision_unblocked(
    b: BrokerView,
    instance_id: Seq<char>,
    accepts_incomplete: bool,
    now: u64,
)
    requires
        b.instances.contains_key(instance_id),
        !spec_in_progress(b.ops, ResourceKeyView::Instance { instance_id }),
        !spec_any_bound(b.bindings, instance_id),
        b.synchronous || accepts_incomplete,
    ensures
        spec_deprovision(b, instance_id, accepts_incomplete, now).1 is Ok,
{
}

/// An accepted asynchronous deprovision answers 202 with an operation token,
/// leaves the instance `Deprovisioning`, and the completion signal removes
/// it.
pub proof fn lemma_deprovision_async_completes_to_absent(
    b: BrokerView,
    instance_id: Seq<char>,
    now: u64,
)
    requires
        !b.synchronous,
        b.instances.contains_key(instance_id),
        !spec_in_progress(b.ops, ResourceKeyView::Instance { instance_id }),
        !spec_any_bound(b.bindings, instance_id),
    ensures
        ({
            let (b2, r) = spec_deprovision(b, instance_id, true, now);
            &&& match r {
                Ok(reply) => reply.status == 202,
                Err(_) => false,
            }
            &&& b2.instances[instance_id].state == InstanceState::Deprovisioning
            &&& spec_in_progress(b2.ops, ResourceKeyView::Instance { instance_id })
            &&& !spec_complete_instance_state(
                b2,
                instance_id,
                true,
                true,
                true,
            ).instances.contains_key(instance_id)
        }),
{
}

/// Polling an instance with no operation history answers
/// `NoActiveOperation`, which the error envelope reports as 404.
pub proof fn lemma_poll_without_history(b: BrokerView, instance_id: Seq<char>)
    requires
        !b.ops.contains_key(ResourceKeyView::Instance { instance_id }),
    ensures
        spec_poll_instance(b, instance_id) == Err::<
            crate::polling::ServiceInstanceLastOpView,
            _,
        >(spec_err(ErrorCodeView::NoActiveOperation)),
        spec_status_code(ErrorCodeView::NoActiveOperation) == 404,
{
}

/// Mid-provision — a fresh asynchronous provision accepted but not yet
/// completed — polling reports the operation in progress.
pub proof fn lemma_poll_mid_provision(
    b: BrokerView,
    instance_id: Seq<char>,
    req: ServiceInstanceRequestBody,
    now: u64,
)
    requires
        !b.synchronous,
        !b.instances.contains_key(instance_id),
        spec_provision(b, instance_id, req, true, now).1 is Ok,
    ensures
        ({
            let b2 = spec_provision(b, instance_id, req, true, now).0;
            match spec_poll_instance(b2, instance_id) {
                Ok(s) => s.state == LastOperationState::InProgress,
                Err(_) => false,
            }
        }),
{
}

/// After the external completion signal arrives, polling reports the
/// operation succeeded.
pub proof fn lemma_poll_after_completion(
    b: BrokerView,
    instance_id: Seq<char>,
    req: ServiceInstanceRequestBody,
    now: u64,
)
    requires
        !b.synchronous,
        !b.instances.contains_key(instance_id),
        spec_provision(b, instance_id, req, true, now).1 is Ok,
    ensures
        ({
            let b2 = spec_provision(b, instance_id, req, true, now).0;
            spec_in_progress(b2.ops, ResourceKeyView::Instance { instance_id }) && ({
                let b3 = spec_complete_instance_state(b2, instance_id, true, true, true);
                match spec_poll_instance(b3, instance_id) {
                    Ok(s) => s.state == LastOperationState::Succeeded,
                    Err(_) => false,
                }
            })
        }),
{
}

/// On the synchronous path the provision's operation record is terminal at
/// once: polling reports success without any completion signal.
pub proof fn lemma_poll_after_sync_provision(
    b: BrokerView,
    instance_id: Seq<char>,
    req: ServiceInstanceRequestBody,
    accepts_incomplete: bool,
    now: u64,
)
    requires
        b.synchronous,
        !b.instances.contains_key(instance_id),
        spec_provision(b, instance_id, req, accepts_incomplete, now).1 is Ok,
    ensures
        ({
            let b2 = spec_provision(b, instance_id, req, accepts_incomplete, now).0;
            match spec_poll_instance(b2, instance_id) {
                Ok(s) => s.state == LastOperationState::Succeeded,
                Err(_) => false,
            }
        }),
{
}

} // verus!
