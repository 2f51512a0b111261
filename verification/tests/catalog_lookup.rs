use brokerapi::binding::{BindingType, Protocol};
use brokerapi::catalog::{Catalog, MaintenanceInfo, Permission, Service, ServicePlan};
use brokerapi::errors::{ErrorCode, OSBError};
use brokerapi::polling::LastOperationState;

fn plan(id: &str) -> ServicePlan {
    ServicePlan {
        id: id.to_string(),
        name: id.to_string(),
        description: "a plan".to_string(),
        metadata: Vec::new(),
        free: Some(true),
        bindable: None,
        plan_updateable: None,
        maximum_polling_duration: None,
        maintenance_info: None,
    }
}

fn service(id: &str, plans: Vec<ServicePlan>) -> Service {
    Service {
        name: id.to_string(),
        id: id.to_string(),
        description: "a service".to_string(),
        tags: Vec::new(),
        permissions: Vec::new(),
        bindable: true,
        instances_retrievable: None,
        bindings_retrievable: None,
        allow_context_updates: None,
        metadata: Vec::new(),
        plan_updateable: None,
        plans,
    }
}

#[test]
fn finds_a_known_pair_and_rejects_unknown_ones() {
    let cat = Catalog { services: vec![service("svc", vec![plan("p1"), plan("p2")])] };
    assert!(cat.find(&"svc".to_string(), &"p2".to_string()).is_some());
    assert!(cat.find(&"svc".to_string(), &"p3".to_string()).is_none());
    assert!(cat.find(&"other".to_string(), &"p1".to_string()).is_none());
}

#[test]
fn plan_flags_override_service_flags() {
    let mut p = plan("p1");
    p.bindable = Some(false);
    let mut s = service("svc", vec![p, plan("p2")]);
    s.plan_updateable = Some(true);
    let cat = Catalog { services: vec![s] };
    let p1 = cat.find(&"svc".to_string(), &"p1".to_string()).unwrap();
    assert!(!p1.bindable);
    assert!(p1.plan_updateable);
    let p2 = cat.find(&"svc".to_string(), &"p2".to_string()).unwrap();
    assert!(p2.bindable);
}

#[test]
fn updateable_defaults_to_false() {
    let cat = Catalog { services: vec![service("svc", vec![plan("p1")])] };
    let p1 = cat.find(&"svc".to_string(), &"p1".to_string()).unwrap();
    assert!(!p1.plan_updateable);
}

#[test]
fn maintenance_info_version_is_surfaced() {
    let mut p = plan("p1");
    p.maintenance_info = Some(MaintenanceInfo {
        version: "2.0.0".to_string(),
        description: Some("reindex".to_string()),
    });
    let cat = Catalog { services: vec![service("svc", vec![p])] };
    let found = cat.find(&"svc".to_string(), &"p1".to_string()).unwrap();
    assert_eq!(found.maintenance_info_version.as_deref(), Some("2.0.0"));
}

#[test]
fn volume_permission_wins_the_binding_shape() {
    let mut s = service("svc", vec![plan("p1")]);
    s.permissions = vec![Permission::SyslogDrain, Permission::VolumeMount];
    let cat = Catalog { services: vec![s] };
    let found = cat.find(&"svc".to_string(), &"p1".to_string()).unwrap();
    assert_eq!(found.shape, BindingType::VolumeServices);
}

#[test]
fn route_permission_beats_syslog() {
    let mut s = service("svc", vec![plan("p1")]);
    s.permissions = vec![Permission::SyslogDrain, Permission::RouteForwarding];
    let cat = Catalog { services: vec![s] };
    let found = cat.find(&"svc".to_string(), &"p1".to_string()).unwrap();
    assert_eq!(found.shape, BindingType::RouteServices);
}

#[test]
fn error_status_codes_follow_the_protocol() {
    let cases: Vec<(ErrorCode, u16)> = vec![
        (ErrorCode::AsyncRequired, 422),
        (ErrorCode::ConcurrencyError, 409),
        (ErrorCode::RequiresApp, 422),
        (ErrorCode::MaintenanceInfoConflict, 409),
        (ErrorCode::VersionUnsupported, 412),
        (ErrorCode::CatalogEntryNotFound, 400),
        (ErrorCode::InstanceAlreadyExists, 409),
        (ErrorCode::BindingAlreadyExists, 409),
        (ErrorCode::OperationAlreadyInProgress, 409),
        (ErrorCode::BindingsExist, 400),
        (ErrorCode::PlanNotUpdateable, 400),
        (ErrorCode::NotBindable, 400),
        (ErrorCode::ServicePlanMismatch, 400),
        (ErrorCode::NoActiveOperation, 404),
        (ErrorCode::NotFound, 404),
        (ErrorCode::Custom("boom".to_string()), 500),
    ];
    for (code, status) in cases {
        let e = OSBError::new(code, "a description".to_string());
        assert_eq!(e.status_code(), status);
        assert!(e.instance_usable);
        assert!(e.update_repeatable);
    }
}

#[test]
fn defaults_match_the_protocol() {
    assert_eq!(Protocol::default(), Protocol::TCP);
    assert_eq!(LastOperationState::default(), LastOperationState::InProgress);
}
