use wtf_scope::health::{HealthBit, ObjectMeta, Pod, PodStatus};
use wtf_scope::shared::SharedScope;
use wtf_scope::wtf_scope::{Event, ObjectReference, QueryError, Time};

fn running_pod(name: &str) -> Pod {
    Pod {
        metadata: ObjectMeta { name: Some(name.to_string()) },
        status: Some(PodStatus { phase: Some("Running".to_string()) }),
    }
}

#[test]
fn a_fresh_shared_registry_is_empty() {
    let shared = SharedScope::new();
    assert_eq!(shared.get_object_health_bit("p1"), Err(QueryError::NotFound));
    assert_eq!(shared.render(), "");
}

#[test]
fn population_and_watch_updates_reach_readers() {
    let shared = SharedScope::new();
    let skipped = shared.populate_objects(&vec![running_pod("p1")], &Vec::new());
    assert_eq!(skipped, 0);
    assert_eq!(
        shared.get_object_health_bit("p1"),
        Ok((HealthBit::Green, Time::earliest()))
    );

    let r = shared.handle_new_log_event(Event {
        type_: Some("Warning".to_string()),
        involved_object: ObjectReference {
            kind: Some("Pod".to_string()),
            name: Some("p1".to_string()),
        },
        message: Some("Liveness probe failed: container app".to_string()),
        last_timestamp: Some(Time { secs: 42 }),
    });
    assert!(r.is_ok());
    assert_eq!(
        shared.get_object_health_bit("p1"),
        Ok((HealthBit::Red, Time { secs: 42 }))
    );
    assert_eq!(shared.render(), "object 'p1' of type Pod has health bit Red\n");
}

#[test]
fn queries_interleaved_with_writes_see_whole_entries() {
    // Reads between single-mutation writes always observe a fully
    // constructed entry: a bit paired with its timestamp, never a
    // half-written one.
    let shared = SharedScope::new();
    for secs in 0..20 {
        let r = shared.handle_new_log_event(Event {
            type_: Some(if secs % 2 == 0 { "Normal" } else { "Warning" }.to_string()),
            involved_object: ObjectReference {
                kind: Some("Pod".to_string()),
                name: Some("p1".to_string()),
            },
            message: Some("tick".to_string()),
            last_timestamp: Some(Time { secs }),
        });
        assert!(r.is_ok());
        let (bit, ts) = shared.get_object_health_bit("p1").unwrap();
        assert_eq!(ts, Time { secs });
        assert_eq!(
            bit,
            if secs % 2 == 0 { HealthBit::Green } else { HealthBit::Yellow }
        );
    }
}
