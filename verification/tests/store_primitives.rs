use brokerapi::store::{
    BindingKey, BindingRecord, BindingState, InstanceRecord, InstanceState, ResourceStore,
};
use brokerapi::binding::BindingType;

fn record(revision: u64) -> InstanceRecord {
    InstanceRecord {
        service_id: "svc".to_string(),
        plan_id: "p1".to_string(),
        parameters: Vec::new(),
        context: Vec::new(),
        maintenance_info_version: None,
        dashboard_url: None,
        state: InstanceState::Active,
        revision,
    }
}

fn binding(state: BindingState) -> BindingRecord {
    BindingRecord {
        service_id: "svc".to_string(),
        plan_id: "p1".to_string(),
        parameters: Vec::new(),
        shape: BindingType::Credentials,
        state,
    }
}

#[test]
fn compare_and_swap_detects_conflicting_writes() {
    let mut store = ResourceStore::new();
    store.instance_put("i1".to_string(), record(0));
    assert!(store.instance_cas("i1".to_string(), 0, record(1)));
    assert_eq!(store.instance_get(&"i1".to_string()).unwrap().revision, 1);
    // a writer still holding revision 0 loses
    assert!(!store.instance_cas("i1".to_string(), 0, record(2)));
    assert_eq!(store.instance_get(&"i1".to_string()).unwrap().revision, 1);
}

#[test]
fn compare_and_swap_fails_on_absent_keys() {
    let mut store = ResourceStore::new();
    assert!(!store.instance_cas("i1".to_string(), 0, record(0)));
    assert!(store.instance_get(&"i1".to_string()).is_none());
}

#[test]
fn delete_is_idempotent() {
    let mut store = ResourceStore::new();
    store.instance_put("i1".to_string(), record(0));
    store.instance_delete(&"i1".to_string());
    assert!(store.instance_get(&"i1".to_string()).is_none());
    store.instance_delete(&"i1".to_string());
    assert!(store.instance_get(&"i1".to_string()).is_none());
}

#[test]
fn bound_bindings_are_seen_per_instance() {
    let mut store = ResourceStore::new();
    let key = |i: &str, b: &str| BindingKey {
        instance_id: i.to_string(),
        binding_id: b.to_string(),
    };
    store.binding_put(key("i1", "b1"), binding(BindingState::Unbinding));
    store.binding_put(key("i2", "b1"), binding(BindingState::Bound));
    assert!(!store.any_bound_binding(&"i1".to_string()));
    assert!(store.any_bound_binding(&"i2".to_string()));
    store.binding_put(key("i1", "b2"), binding(BindingState::Bound));
    assert!(store.any_bound_binding(&"i1".to_string()));
    store.binding_delete(&key("i1", "b2"));
    assert!(!store.any_bound_binding(&"i1".to_string()));
}
