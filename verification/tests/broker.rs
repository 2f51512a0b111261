use brokerapi::binding;
use brokerapi::catalog::{Catalog, MaintenanceInfo, Permission, Service, ServicePlan};
use brokerapi::engine::Broker;
use brokerapi::errors::ErrorCode;
use brokerapi::polling::{LastOperationParams, LastOperationState};
use brokerapi::service::{
    ProvisionParams, ServiceDeleteParams, ServiceFetchParams, ServiceInstanceRequestBody,
    ServiceUpdateRequestBody,
};

fn plan(id: &str) -> ServicePlan {
    ServicePlan {
        id: id.to_string(),
        name: id.to_string(),
        description: "a plan".to_string(),
        metadata: Vec::new(),
        free: Some(true),
        bindable: None,
        plan_updateable: None,
        maximum_polling_duration: None,
        maintenance_info: None,
    }
}

fn catalog() -> Catalog {
    let mut paid = plan("paid");
    paid.plan_updateable = Some(true);
    let mut locked = plan("locked");
    locked.plan_updateable = Some(false);
    locked.maintenance_info = Some(MaintenanceInfo {
        version: "1.2.3".to_string(),
        description: None,
    });
    Catalog {
        services: vec![Service {
            name: "hellowasi".to_string(),
            id: "hellowasi".to_string(),
            description: "a service".to_string(),
            tags: Vec::new(),
            permissions: Vec::new(),
            bindable: true,
            instances_retrievable: Some(true),
            bindings_retrievable: Some(true),
            allow_context_updates: None,
            metadata: Vec::new(),
            plan_updateable: Some(true),
            plans: vec![plan("free"), paid, locked],
        }],
    }
}

fn provision_body() -> ServiceInstanceRequestBody {
    ServiceInstanceRequestBody {
        service_id: "hellowasi".to_string(),
        plan_id: "free".to_string(),
        context: None,
        organization_guid: "org".to_string(),
        space_guid: "space".to_string(),
        parameters: None,
        maintenance_info: None,
    }
}

fn no_params() -> ProvisionParams {
    ProvisionParams { accepts_incomplete: None }
}

fn async_params() -> ProvisionParams {
    ProvisionParams { accepts_incomplete: Some(true) }
}

fn delete_params(ai: bool) -> ServiceDeleteParams {
    ServiceDeleteParams {
        service_id: "hellowasi".to_string(),
        plan_id: "free".to_string(),
        accepts_incomplete: if ai { Some(true) } else { None },
    }
}

fn fetch_params() -> ServiceFetchParams {
    ServiceFetchParams { service: None, plan_id: None }
}

fn poll_params() -> LastOperationParams {
    LastOperationParams { service_id: None, plan_id: None, operation: None }
}

fn i1() -> String {
    "i1".to_string()
}

#[test]
fn provision_then_fetch_returns_matching_ids() {
    let mut broker = Broker::new(catalog(), true);
    let r = broker.provision(&i1(), &no_params(), &provision_body(), 7).unwrap();
    assert_eq!(r.status, 201);
    let fetched = broker.fetch_instance(&i1(), &fetch_params()).unwrap();
    assert_eq!(fetched.service_id.as_deref(), Some("hellowasi"));
    assert_eq!(fetched.plan_id.as_deref(), Some("free"));
}

#[test]
fn provision_unknown_plan_is_a_client_error() {
    let mut broker = Broker::new(catalog(), true);
    let mut body = provision_body();
    body.plan_id = "gold".to_string();
    let e = broker.provision(&i1(), &no_params(), &body, 0).unwrap_err();
    assert_eq!(e.error, ErrorCode::CatalogEntryNotFound);
    assert_eq!(e.status_code(), 400);
}

#[test]
fn identical_provision_replays_with_200_once_settled() {
    let mut broker = Broker::new(catalog(), true);
    let first = broker.provision(&i1(), &no_params(), &provision_body(), 1).unwrap();
    assert_eq!(first.status, 201);
    let second = broker.provision(&i1(), &no_params(), &provision_body(), 2).unwrap();
    assert_eq!(second.status, 200);
    assert_eq!(first.body.operation, second.body.operation);
    assert_eq!(first.body.dashboard_url, second.body.dashboard_url);
    let third = broker.provision(&i1(), &no_params(), &provision_body(), 3).unwrap();
    assert_eq!(third.status, second.status);
    assert_eq!(third.body.operation, second.body.operation);
}

#[test]
fn replay_answers_202_only_while_provisioning() {
    let mut broker = Broker::new(catalog(), false);
    let first = broker.provision(&i1(), &async_params(), &provision_body(), 1).unwrap();
    assert_eq!(first.status, 202);
    let mid = broker.provision(&i1(), &async_params(), &provision_body(), 2).unwrap();
    assert_eq!(mid.status, 202);
    assert_eq!(mid.body.operation.as_deref(), Some("provision"));
    broker.complete_instance_operation(&i1(), true, true, true).unwrap();
    let settled = broker.provision(&i1(), &async_params(), &provision_body(), 3).unwrap();
    assert_eq!(settled.status, 200);
    assert_eq!(settled.body.operation, None);
}

#[test]
fn differing_provision_conflicts() {
    let mut broker = Broker::new(catalog(), true);
    broker.provision(&i1(), &no_params(), &provision_body(), 1).unwrap();
    let mut body = provision_body();
    body.plan_id = "paid".to_string();
    let e = broker.provision(&i1(), &no_params(), &body, 2).unwrap_err();
    assert_eq!(e.error, ErrorCode::InstanceAlreadyExists);
    assert_eq!(e.status_code(), 409);
}

#[test]
fn async_provision_needs_accepts_incomplete() {
    let mut broker = Broker::new(catalog(), false);
    let e = broker.provision(&i1(), &no_params(), &provision_body(), 0).unwrap_err();
    assert_eq!(e.error, ErrorCode::AsyncRequired);
    assert_eq!(e.status_code(), 422);
}

#[test]
fn update_and_deprovision_exclude_each_other() {
    let mut broker = Broker::new(catalog(), false);
    broker.provision(&i1(), &async_params(), &provision_body(), 0).unwrap();
    broker.complete_instance_operation(&i1(), true, true, true).unwrap();
    let update = ServiceUpdateRequestBody {
        service_id: "hellowasi".to_string(),
        plan_id: Some("paid".to_string()),
        context: None,
        parameters: None,
        previous_values: None,
        maintenance_info: None,
    };
    let accepted = broker.update(&i1(), &async_params(), &update, 1).unwrap();
    assert_eq!(accepted.status, 202);
    let e = broker.deprovision(&i1(), &delete_params(true), 2).unwrap_err();
    assert_eq!(e.error, ErrorCode::OperationAlreadyInProgress);
    assert_eq!(e.status_code(), 409);
}

#[test]
fn update_to_non_updateable_plan_is_refused() {
    let mut broker = Broker::new(catalog(), true);
    let mut body = provision_body();
    body.plan_id = "paid".to_string();
    broker.provision(&i1(), &no_params(), &body, 0).unwrap();
    let update = ServiceUpdateRequestBody {
        service_id: "hellowasi".to_string(),
        plan_id: Some("locked".to_string()),
        context: None,
        parameters: None,
        previous_values: None,
        maintenance_info: None,
    };
    let e = broker.update(&i1(), &no_params(), &update, 1).unwrap_err();
    assert_eq!(e.error, ErrorCode::PlanNotUpdateable);
    assert_eq!(e.status_code(), 400);
}

#[test]
fn stale_maintenance_info_conflicts() {
    let mut broker = Broker::new(catalog(), true);
    let mut body = provision_body();
    body.plan_id = "locked".to_string();
    broker.provision(&i1(), &no_params(), &body, 0).unwrap();
    let update = ServiceUpdateRequestBody {
        service_id: "hellowasi".to_string(),
        plan_id: None,
        context: None,
        parameters: None,
        previous_values: None,
        maintenance_info: Some(MaintenanceInfo {
            version: "0.9.0".to_string(),
            description: None,
        }),
    };
    let e = broker.update(&i1(), &no_params(), &update, 1).unwrap_err();
    assert_eq!(e.error, ErrorCode::MaintenanceInfoConflict);
    assert_eq!(e.status_code(), 409);
    let update_ok = ServiceUpdateRequestBody {
        maintenance_info: Some(MaintenanceInfo {
            version: "1.2.3".to_string(),
            description: None,
        }),
        ..update
    };
    let r = broker.update(&i1(), &no_params(), &update_ok, 2).unwrap();
    assert_eq!(r.status, 200);
}

#[test]
fn deprovision_blocked_while_a_binding_is_bound() {
    let mut broker = Broker::new(catalog(), true);
    broker.provision(&i1(), &no_params(), &provision_body(), 0).unwrap();
    let bind_body = binding::BindingRequestBody {
        service_id: "hellowasi".to_string(),
        plan_id: "free".to_string(),
        context: None,
        bind_resource: None,
        parameters: None,
    };
    let bind_params = binding::ProvisionParams { accepts_incomplete: None };
    let bound = broker.bind(&i1(), &"b1".to_string(), &bind_params, &bind_body, 1).unwrap();
    assert_eq!(bound.status, 201);
    let e = broker.deprovision(&i1(), &delete_params(false), 2).unwrap_err();
    assert_eq!(e.error, ErrorCode::BindingsExist);
    assert_eq!(e.status_code(), 400);
    let unbind_params = binding::BindingDeleteParams {
        service_id: "hellowasi".to_string(),
        plan_id: "free".to_string(),
        accepts_incomplete: None,
    };
    let gone = broker.unbind(&i1(), &"b1".to_string(), &unbind_params, 3).unwrap();
    assert_eq!(gone.status, 200);
    let deleted = broker.deprovision(&i1(), &delete_params(false), 4).unwrap();
    assert_eq!(deleted.status, 200);
}

#[test]
fn deprovision_of_absent_instance_is_already_gone() {
    let mut broker = Broker::new(catalog(), true);
    let r = broker.deprovision(&i1(), &delete_params(false), 0).unwrap();
    assert_eq!(r.status, 410);
}

#[test]
fn polling_without_history_is_not_found() {
    let broker = Broker::new(catalog(), true);
    let e = broker.poll_instance(&i1(), &poll_params()).unwrap_err();
    assert_eq!(e.error, ErrorCode::NoActiveOperation);
    assert_eq!(e.status_code(), 404);
}

#[test]
fn polling_tracks_an_async_provision_to_completion() {
    let mut broker = Broker::new(catalog(), false);
    let accepted = broker.provision(&i1(), &async_params(), &provision_body(), 0).unwrap();
    assert_eq!(accepted.status, 202);
    assert_eq!(accepted.body.operation.as_deref(), Some("provision"));
    let mid = broker.poll_instance(&i1(), &poll_params()).unwrap();
    assert_eq!(mid.state, LastOperationState::InProgress);
    broker.complete_instance_operation(&i1(), true, true, true).unwrap();
    let done = broker.poll_instance(&i1(), &poll_params()).unwrap();
    assert_eq!(done.state, LastOperationState::Succeeded);
    let fetched = broker.fetch_instance(&i1(), &fetch_params()).unwrap();
    assert_eq!(fetched.service_id.as_deref(), Some("hellowasi"));
}

#[test]
fn failed_async_provision_removes_the_record() {
    let mut broker = Broker::new(catalog(), false);
    broker.provision(&i1(), &async_params(), &provision_body(), 0).unwrap();
    broker.complete_instance_operation(&i1(), false, false, true).unwrap();
    let e = broker.fetch_instance(&i1(), &fetch_params()).unwrap_err();
    assert_eq!(e.error, ErrorCode::NotFound);
    let polled = broker.poll_instance(&i1(), &poll_params()).unwrap();
    assert_eq!(polled.state, LastOperationState::Failed);
    assert_eq!(polled.instance_usable, Some(false));
    assert_eq!(polled.update_repeatable, Some(true));
}

#[test]
fn completion_without_an_active_operation_fails() {
    let mut broker = Broker::new(catalog(), true);
    let e = broker.complete_instance_operation(&i1(), true, true, true).unwrap_err();
    assert_eq!(e.error, ErrorCode::NoActiveOperation);
}

#[test]
fn scenario_put_get_poll() {
    // synchronous path
    let mut broker = Broker::new(catalog(), true);
    let r = broker.provision(&i1(), &no_params(), &provision_body(), 0).unwrap();
    assert!(r.status == 201 || r.status == 202);
    let fetched = broker.fetch_instance(&i1(), &fetch_params()).unwrap();
    assert_eq!(fetched.service_id.as_deref(), Some("hellowasi"));
    assert_eq!(fetched.plan_id.as_deref(), Some("free"));
    let polled = broker.poll_instance(&i1(), &poll_params()).unwrap();
    assert_eq!(polled.state, LastOperationState::Succeeded);

    // asynchronous path
    let mut broker = Broker::new(catalog(), false);
    let r = broker.provision(&i1(), &async_params(), &provision_body(), 0).unwrap();
    assert!(r.status == 201 || r.status == 202);
    let fetched = broker.fetch_instance(&i1(), &fetch_params()).unwrap();
    assert_eq!(fetched.service_id.as_deref(), Some("hellowasi"));
    assert_eq!(fetched.plan_id.as_deref(), Some("free"));
    let polled = broker.poll_instance(&i1(), &poll_params()).unwrap();
    assert_eq!(polled.state, LastOperationState::InProgress);
    broker.complete_instance_operation(&i1(), true, true, true).unwrap();
    let polled = broker.poll_instance(&i1(), &poll_params()).unwrap();
    assert_eq!(polled.state, LastOperationState::Succeeded);
}

#[test]
fn binding_replay_and_conflict() {
    let mut broker = Broker::new(catalog(), true);
    broker.provision(&i1(), &no_params(), &provision_body(), 0).unwrap();
    let bind_body = binding::BindingRequestBody {
        service_id: "hellowasi".to_string(),
        plan_id: "free".to_string(),
        context: None,
        bind_resource: None,
        parameters: None,
    };
    let bind_params = binding::ProvisionParams { accepts_incomplete: None };
    let first = broker.bind(&i1(), &"b1".to_string(), &bind_params, &bind_body, 1).unwrap();
    assert_eq!(first.status, 201);
    let second = broker.bind(&i1(), &"b1".to_string(), &bind_params, &bind_body, 2).unwrap();
    assert_eq!(second.status, 200);
    let mut other = binding::BindingRequestBody {
        service_id: "hellowasi".to_string(),
        plan_id: "free".to_string(),
        context: None,
        bind_resource: None,
        parameters: None,
    };
    other.parameters = Some(vec![("k".to_string(), "v".to_string())]);
    let e = broker.bind(&i1(), &"b1".to_string(), &bind_params, &other, 3).unwrap_err();
    assert_eq!(e.error, ErrorCode::BindingAlreadyExists);
}

#[test]
fn binding_against_missing_instance_is_not_found() {
    let mut broker = Broker::new(catalog(), true);
    let bind_body = binding::BindingRequestBody {
        service_id: "hellowasi".to_string(),
        plan_id: "free".to_string(),
        context: None,
        bind_resource: None,
        parameters: None,
    };
    let bind_params = binding::ProvisionParams { accepts_incomplete: None };
    let e = broker.bind(&i1(), &"b1".to_string(), &bind_params, &bind_body, 0).unwrap_err();
    assert_eq!(e.error, ErrorCode::NotFound);
    assert_eq!(e.status_code(), 404);
}

#[test]
fn unbind_of_absent_binding_is_already_gone() {
    let mut broker = Broker::new(catalog(), true);
    let unbind_params = binding::BindingDeleteParams {
        service_id: "hellowasi".to_string(),
        plan_id: "free".to_string(),
        accepts_incomplete: None,
    };
    let r = broker.unbind(&i1(), &"b1".to_string(), &unbind_params, 0).unwrap();
    assert_eq!(r.status, 410);
}

#[test]
fn credentials_shape_is_the_default_binding_body() {
    let mut broker = Broker::new(catalog(), true);
    broker.provision(&i1(), &no_params(), &provision_body(), 0).unwrap();
    let bind_body = binding::BindingRequestBody {
        service_id: "hellowasi".to_string(),
        plan_id: "free".to_string(),
        context: None,
        bind_resource: None,
        parameters: None,
    };
    let bind_params = binding::ProvisionParams { accepts_incomplete: None };
    let bound = broker.bind(&i1(), &"b1".to_string(), &bind_params, &bind_body, 1).unwrap();
    assert!(bound.body.credentials.is_some());
    assert!(bound.body.syslog_drain_url.is_none());
    assert!(bound.body.route_service_url.is_none());
    let fetched = broker
        .fetch_binding(&i1(), &"b1".to_string(), &binding::BindingFetchParams {
            service: None,
            plan_id: None,
        })
        .unwrap();
    assert!(fetched.credentials.is_some());
}

#[test]
fn syslog_shape_follows_the_service_permissions() {
    let mut cat = catalog();
    cat.services[0].permissions = vec![Permission::SyslogDrain];
    let mut broker = Broker::new(cat, true);
    broker.provision(&i1(), &no_params(), &provision_body(), 0).unwrap();
    let bind_body = binding::BindingRequestBody {
        service_id: "hellowasi".to_string(),
        plan_id: "free".to_string(),
        context: None,
        bind_resource: None,
        parameters: None,
    };
    let bind_params = binding::ProvisionParams { accepts_incomplete: None };
    let bound = broker.bind(&i1(), &"b1".to_string(), &bind_params, &bind_body, 1).unwrap();
    assert!(bound.body.credentials.is_none());
    assert!(bound.body.syslog_drain_url.is_some());
}

#[test]
fn async_binding_polls_to_completion() {
    let mut broker = Broker::new(catalog(), false);
    broker.provision(&i1(), &async_params(), &provision_body(), 0).unwrap();
    broker.complete_instance_operation(&i1(), true, true, true).unwrap();
    let bind_body = binding::BindingRequestBody {
        service_id: "hellowasi".to_string(),
        plan_id: "free".to_string(),
        context: None,
        bind_resource: None,
        parameters: None,
    };
    let bind_params = binding::ProvisionParams { accepts_incomplete: Some(true) };
    let accepted = broker.bind(&i1(), &"b1".to_string(), &bind_params, &bind_body, 1).unwrap();
    assert_eq!(accepted.status, 202);
    let mid = broker.poll_binding(&i1(), &"b1".to_string(), &poll_params()).unwrap();
    assert_eq!(mid.state, LastOperationState::InProgress);
    broker.complete_binding_operation(&i1(), &"b1".to_string(), true).unwrap();
    let done = broker.poll_binding(&i1(), &"b1".to_string(), &poll_params()).unwrap();
    assert_eq!(done.state, LastOperationState::Succeeded);
}

#[test]
fn binding_to_an_unbindable_plan_is_refused() {
    let mut cat = catalog();
    cat.services[0].bindable = false;
    let mut broker = Broker::new(cat, true);
    broker.provision(&i1(), &no_params(), &provision_body(), 0).unwrap();
    let bind_body = binding::BindingRequestBody {
        service_id: "hellowasi".to_string(),
        plan_id: "free".to_string(),
        context: None,
        bind_resource: None,
        parameters: None,
    };
    let bind_params = binding::ProvisionParams { accepts_incomplete: None };
    let e = broker.bind(&i1(), &"b1".to_string(), &bind_params, &bind_body, 1).unwrap_err();
    assert_eq!(e.error, ErrorCode::NotBindable);
    assert_eq!(e.status_code(), 400);
}

#[test]
fn update_of_absent_instance_is_not_found() {
    let mut broker = Broker::new(catalog(), true);
    let update = ServiceUpdateRequestBody {
        service_id: "hellowasi".to_string(),
        plan_id: None,
        context: None,
        parameters: None,
        previous_values: None,
        maintenance_info: None,
    };
    let e = broker.update(&i1(), &no_params(), &update, 0).unwrap_err();
    assert_eq!(e.error, ErrorCode::NotFound);
    assert_eq!(e.status_code(), 404);
}

#[test]
fn fetching_an_absent_binding_is_not_found() {
    let broker = Broker::new(catalog(), true);
    let e = broker
        .fetch_binding(&i1(), &"b1".to_string(), &binding::BindingFetchParams {
            service: None,
            plan_id: None,
        })
        .unwrap_err();
    assert_eq!(e.error, ErrorCode::NotFound);
}

#[test]
fn provision_parameters_participate_in_replay_detection() {
    let mut broker = Broker::new(catalog(), true);
    let mut body = provision_body();
    body.parameters = Some(vec![("size".to_string(), "small".to_string())]);
    broker.provision(&i1(), &no_params(), &body, 0).unwrap();
    // replay with identical parameters succeeds...
    broker.provision(&i1(), &no_params(), &body, 1).unwrap();
    // ...and with reordered-but-different parameters it conflicts
    let mut other = provision_body();
    other.parameters = Some(vec![("size".to_string(), "large".to_string())]);
    let e = broker.provision(&i1(), &no_params(), &other, 2).unwrap_err();
    assert_eq!(e.error, ErrorCode::InstanceAlreadyExists);
}

#[test]
fn volume_shape_populates_volume_mounts() {
    let mut cat = catalog();
    cat.services[0].permissions = vec![Permission::VolumeMount];
    let mut broker = Broker::new(cat, true);
    broker.provision(&i1(), &no_params(), &provision_body(), 0).unwrap();
    let bind_body = binding::BindingRequestBody {
        service_id: "hellowasi".to_string(),
        plan_id: "free".to_string(),
        context: None,
        bind_resource: None,
        parameters: None,
    };
    let bind_params = binding::ProvisionParams { accepts_incomplete: None };
    let bound = broker.bind(&i1(), &"b1".to_string(), &bind_params, &bind_body, 1).unwrap();
    assert!(bound.body.volume_mounts.is_some());
    assert!(bound.body.credentials.is_none());
}

#[test]
fn bind_must_name_the_owning_instance_identity() {
    let mut broker = Broker::new(catalog(), true);
    broker.provision(&i1(), &no_params(), &provision_body(), 0).unwrap();
    let bind_body = binding::BindingRequestBody {
        service_id: "hellowasi".to_string(),
        plan_id: "paid".to_string(),
        context: None,
        bind_resource: None,
        parameters: None,
    };
    let bind_params = binding::ProvisionParams { accepts_incomplete: None };
    let e = broker.bind(&i1(), &"b1".to_string(), &bind_params, &bind_body, 1).unwrap_err();
    assert_eq!(e.error, ErrorCode::ServicePlanMismatch);
    assert_eq!(e.status_code(), 400);
}
