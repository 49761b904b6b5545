use wtf_scope::health::HealthBit;
use wtf_scope::scope::{Scope, ScopeError};

#[test]
fn a_new_pod_starts_unknown() {
    let mut scope = Scope::new();
    scope.add_to_scope(&"p1".to_string()).unwrap();
    assert_eq!(scope.query_pod(&"p1".to_string(), None), Ok(HealthBit::Unknown));
}

#[test]
fn a_fresh_bit_is_recorded_and_returned() {
    let mut scope = Scope::new();
    scope.add_to_scope(&"p1".to_string()).unwrap();
    assert_eq!(
        scope.query_pod(&"p1".to_string(), Some(HealthBit::Green)),
        Ok(HealthBit::Green)
    );
    // The cached value was updated by the refreshing query.
    assert_eq!(scope.query_pod(&"p1".to_string(), None), Ok(HealthBit::Green));
}

#[test]
fn a_pod_outside_the_scope_is_reported() {
    let mut scope = Scope::new();
    assert_eq!(
        scope.query_pod(&"p1".to_string(), None),
        Err(ScopeError::PodNotFound)
    );
    assert_eq!(
        scope.query_pod(&"p1".to_string(), Some(HealthBit::Red)),
        Err(ScopeError::PodNotFound)
    );
}

#[test]
fn update_scope_refreshes_only_known_pods() {
    let mut scope = Scope::new();
    scope.add_to_scope(&"a".to_string()).unwrap();
    scope.add_to_scope(&"b".to_string()).unwrap();
    let fetched = vec![
        ("a".to_string(), HealthBit::Green),
        ("stranger".to_string(), HealthBit::Red),
    ];
    scope.update_scope(&fetched);
    assert_eq!(scope.query_pod(&"a".to_string(), None), Ok(HealthBit::Green));
    assert_eq!(scope.query_pod(&"b".to_string(), None), Ok(HealthBit::Unknown));
    assert_eq!(
        scope.query_pod(&"stranger".to_string(), None),
        Err(ScopeError::PodNotFound)
    );
}

#[test]
fn re_adding_a_pod_resets_it_to_unknown() {
    let mut scope = Scope::new();
    scope.add_to_scope(&"p".to_string()).unwrap();
    scope.query_pod(&"p".to_string(), Some(HealthBit::Red)).unwrap();
    scope.add_to_scope(&"p".to_string()).unwrap();
    assert_eq!(scope.query_pod(&"p".to_string(), None), Ok(HealthBit::Unknown));
}
