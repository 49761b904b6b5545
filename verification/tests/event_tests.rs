use wtf_scope::health::{HealthBit, ObjectMeta, Pod, PodStatus};
use wtf_scope::wtf_scope::{
    Event, EventError, ObjectReference, QueryError, ResourceType, Time, WtfScope,
};

fn event(kind: Option<&str>, name: Option<&str>, message: &str, severity: Option<&str>, secs: i64) -> Event {
    Event {
        type_: severity.map(|s| s.to_string()),
        involved_object: ObjectReference {
            kind: kind.map(|s| s.to_string()),
            name: name.map(|s| s.to_string()),
        },
        message: Some(message.to_string()),
        last_timestamp: Some(Time { secs }),
    }
}

#[test]
fn normal_event_records_green() {
    let mut scope = WtfScope::new();
    let r = scope.handle_new_log_event(event(
        Some("Pod"),
        Some("p1"),
        "Started container",
        Some("Normal"),
        10,
    ));
    assert!(r.is_ok());
    assert_eq!(scope.get_object_health_bit("p1"), Ok((HealthBit::Green, Time { secs: 10 })));
}

#[test]
fn warning_event_records_yellow() {
    let mut scope = WtfScope::new();
    scope
        .handle_new_log_event(event(Some("Pod"), Some("p1"), "Back-off restarting", Some("Warning"), 11))
        .unwrap();
    assert_eq!(scope.get_object_health_bit("p1"), Ok((HealthBit::Yellow, Time { secs: 11 })));
}

#[test]
fn event_without_severity_records_yellow() {
    let mut scope = WtfScope::new();
    scope
        .handle_new_log_event(event(Some("Pod"), Some("p1"), "something happened", None, 12))
        .unwrap();
    assert_eq!(scope.get_object_health_bit("p1"), Ok((HealthBit::Yellow, Time { secs: 12 })));
}

#[test]
fn pattern_overrides_normal_severity() {
    // Severity says Normal, the message says the liveness probe failed:
    // the pattern's verdict wins.
    let mut scope = WtfScope::new();
    scope
        .handle_new_log_event(event(
            Some("Pod"),
            Some("p1"),
            "Liveness probe failed: container X",
            Some("Normal"),
            13,
        ))
        .unwrap();
    assert_eq!(scope.get_object_health_bit("p1"), Ok((HealthBit::Red, Time { secs: 13 })));
}

#[test]
fn deleted_pod_message_marks_the_named_pod_red() {
    let mut scope = WtfScope::new();
    scope
        .handle_new_log_event(event(
            Some("Pod"),
            Some("controller-0"),
            "Deleted pod: foo",
            Some("Normal"),
            14,
        ))
        .unwrap();
    // The captured pod, not the involved object, takes the mark...
    assert_eq!(scope.get_object_health_bit("foo"), Ok((HealthBit::Red, Time { secs: 14 })));
    // ...and it stays present in the registry rather than being removed.
    assert_eq!(scope.objects.len(), 1);
    assert_eq!(scope.objects[0].name, "foo");
    assert_eq!(scope.objects[0].status.object_type, ResourceType::Pod);
}

#[test]
fn deletion_marks_rather_than_evicts_a_known_pod() {
    let mut scope = WtfScope::new();
    scope
        .handle_new_log_event(event(Some("Pod"), Some("foo"), "Started container", Some("Normal"), 1))
        .unwrap();
    scope
        .handle_new_log_event(event(
            Some("Pod"),
            Some("controller-0"),
            "Deleted pod: foo",
            Some("Normal"),
            2,
        ))
        .unwrap();
    assert_eq!(scope.get_object_health_bit("foo"), Ok((HealthBit::Red, Time { secs: 2 })));
    assert_eq!(scope.objects[0].status.health_bit.len(), 2);
}

#[test]
fn stopping_container_message_marks_the_involved_object() {
    let mut scope = WtfScope::new();
    scope
        .handle_new_log_event(event(
            Some("Pod"),
            Some("web-0"),
            "Stopping container web",
            Some("Normal"),
            3,
        ))
        .unwrap();
    assert_eq!(scope.get_object_health_bit("web-0"), Ok((HealthBit::Red, Time { secs: 3 })));
}

#[test]
fn sandbox_change_marks_the_involved_object_yellow() {
    let mut scope = WtfScope::new();
    scope
        .handle_new_log_event(event(
            Some("Pod"),
            Some("web-0"),
            "Pod sandbox changed, it will be killed and re-created.",
            Some("Normal"),
            4,
        ))
        .unwrap();
    assert_eq!(scope.get_object_health_bit("web-0"), Ok((HealthBit::Yellow, Time { secs: 4 })));
}

#[test]
fn event_without_a_name_is_skipped() {
    let mut scope = WtfScope::new();
    let r = scope.handle_new_log_event(event(Some("Pod"), None, "Started container", Some("Normal"), 5));
    assert_eq!(r, Err(EventError::MissingName));
    assert_eq!(scope.objects.len(), 0);
}

#[test]
fn event_without_a_kind_is_skipped() {
    let mut scope = WtfScope::new();
    let r = scope.handle_new_log_event(event(None, Some("p"), "Started container", Some("Normal"), 6));
    assert_eq!(r, Err(EventError::MissingKind));
    assert_eq!(scope.objects.len(), 0);
}

#[test]
fn event_of_an_unknown_kind_is_skipped() {
    let mut scope = WtfScope::new();
    let r = scope.handle_new_log_event(event(
        Some("CronJob"),
        Some("p"),
        "Started container",
        Some("Normal"),
        7,
    ));
    assert_eq!(r, Err(EventError::UnrecognizedKind));
    assert_eq!(scope.objects.len(), 0);
}

#[test]
fn event_without_a_timestamp_takes_the_earliest_sentinel() {
    let mut scope = WtfScope::new();
    let mut ev = event(Some("Pod"), Some("p1"), "Started container", Some("Normal"), 0);
    ev.last_timestamp = None;
    scope.handle_new_log_event(ev).unwrap();
    assert_eq!(scope.get_object_health_bit("p1"), Ok((HealthBit::Green, Time::earliest())));
}

#[test]
fn event_without_a_message_falls_back_to_severity() {
    let mut scope = WtfScope::new();
    let mut ev = event(Some("Pod"), Some("p1"), "", Some("Normal"), 8);
    ev.message = None;
    scope.handle_new_log_event(ev).unwrap();
    assert_eq!(scope.get_object_health_bit("p1"), Ok((HealthBit::Green, Time { secs: 8 })));
}

#[test]
fn handle_log_msg_applies_only_the_deleted_pod_rule() {
    let mut scope = WtfScope::new();
    scope.handle_log_msg("Deleted pod: gone-1", Time { secs: 9 }).unwrap();
    assert_eq!(scope.get_object_health_bit("gone-1"), Ok((HealthBit::Red, Time { secs: 9 })));
    scope.handle_log_msg("Stopping container x", Time { secs: 10 }).unwrap();
    assert_eq!(scope.objects.len(), 1);
}

#[test]
fn unrecognized_phase_does_not_corrupt_the_registry() {
    // A pod whose status does not classify is skipped by population, and
    // a later valid event for the same pod still succeeds.
    let mut scope = WtfScope::new();
    let bogus = Pod {
        metadata: ObjectMeta { name: Some("p1".to_string()) },
        status: Some(PodStatus { phase: Some("Bogus".to_string()) }),
    };
    let skipped = scope.populate_objects(&vec![bogus], &Vec::new());
    assert_eq!(skipped, 1);
    assert_eq!(scope.get_object_health_bit("p1"), Err(QueryError::NotFound));
    scope
        .handle_new_log_event(event(Some("Pod"), Some("p1"), "Started container", Some("Normal"), 20))
        .unwrap();
    assert_eq!(scope.get_object_health_bit("p1"), Ok((HealthBit::Green, Time { secs: 20 })));
}
