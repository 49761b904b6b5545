use wtf_scope::health::{
    Deployment, DeploymentStatus, HealthBit, HealthError, ObjectMeta, Pod, PodStatus,
    QueryableResource, ReplicaSet, ReplicaSetStatus, SimplePodStatus,
};
use wtf_scope::health::get_pod_status;

fn pod_with_phase(phase: &str) -> Pod {
    Pod {
        metadata: ObjectMeta { name: Some("p".to_string()) },
        status: Some(PodStatus { phase: Some(phase.to_string()) }),
    }
}

#[test]
fn pod_phase_running_is_green() {
    assert_eq!(pod_with_phase("Running").get_health_bit(), Ok(HealthBit::Green));
}

#[test]
fn pod_phase_succeeded_is_green() {
    assert_eq!(pod_with_phase("Succeeded").get_health_bit(), Ok(HealthBit::Green));
}

#[test]
fn pod_phase_pending_is_yellow() {
    assert_eq!(pod_with_phase("Pending").get_health_bit(), Ok(HealthBit::Yellow));
}

#[test]
fn pod_phase_failed_is_red() {
    assert_eq!(pod_with_phase("Failed").get_health_bit(), Ok(HealthBit::Red));
}

#[test]
fn pod_phase_unknown_is_red() {
    assert_eq!(pod_with_phase("Unknown").get_health_bit(), Ok(HealthBit::Red));
}

#[test]
fn pod_phase_bogus_is_unrecognized() {
    assert_eq!(
        pod_with_phase("Bogus").get_health_bit(),
        Err(HealthError::UnrecognizedPhase)
    );
}

#[test]
fn pod_without_status_is_missing_status() {
    let pod = Pod { metadata: ObjectMeta { name: Some("p".to_string()) }, status: None };
    assert_eq!(pod.get_health_bit(), Err(HealthError::MissingStatus));
}

#[test]
fn pod_without_phase_is_missing_status() {
    let pod = Pod {
        metadata: ObjectMeta { name: Some("p".to_string()) },
        status: Some(PodStatus { phase: None }),
    };
    assert_eq!(pod.get_health_bit(), Err(HealthError::MissingStatus));
}

#[test]
fn pod_status_maps_each_phase() {
    assert_eq!(get_pod_status(&pod_with_phase("Succeeded")), Ok(SimplePodStatus::Succeeded));
    assert_eq!(get_pod_status(&pod_with_phase("Failed")), Ok(SimplePodStatus::Failed));
    assert_eq!(get_pod_status(&pod_with_phase("Running")), Ok(SimplePodStatus::Running));
    assert_eq!(get_pod_status(&pod_with_phase("Pending")), Ok(SimplePodStatus::Pending));
    assert_eq!(get_pod_status(&pod_with_phase("Unknown")), Ok(SimplePodStatus::Unknown));
    assert_eq!(
        get_pod_status(&pod_with_phase("Evicted")),
        Err(HealthError::UnrecognizedPhase)
    );
}

fn replica_set(replicas: i32, ready: Option<i32>) -> ReplicaSet {
    ReplicaSet {
        metadata: ObjectMeta { name: Some("rs".to_string()) },
        status: Some(ReplicaSetStatus { replicas, ready_replicas: ready }),
    }
}

#[test]
fn replica_set_all_ready_is_green() {
    assert_eq!(replica_set(3, Some(3)).get_health_bit(), Ok(HealthBit::Green));
}

#[test]
fn replica_set_short_of_ready_is_red() {
    assert_eq!(replica_set(3, Some(2)).get_health_bit(), Ok(HealthBit::Red));
}

#[test]
fn replica_set_absent_ready_counts_as_zero() {
    assert_eq!(replica_set(0, None).get_health_bit(), Ok(HealthBit::Green));
    assert_eq!(replica_set(2, None).get_health_bit(), Ok(HealthBit::Red));
}

#[test]
fn replica_set_without_status_is_missing_status() {
    let rs = ReplicaSet { metadata: ObjectMeta { name: Some("rs".to_string()) }, status: None };
    assert_eq!(rs.get_health_bit(), Err(HealthError::MissingStatus));
}

fn deployment(unavailable: Option<i32>) -> Deployment {
    Deployment {
        metadata: ObjectMeta { name: Some("d".to_string()) },
        status: Some(DeploymentStatus { unavailable_replicas: unavailable }),
    }
}

#[test]
fn deployment_with_unavailable_is_red() {
    assert_eq!(deployment(Some(1)).get_health_bit(), Ok(HealthBit::Red));
}

#[test]
fn deployment_fully_available_is_green() {
    assert_eq!(deployment(Some(0)).get_health_bit(), Ok(HealthBit::Green));
    assert_eq!(deployment(None).get_health_bit(), Ok(HealthBit::Green));
}

#[test]
fn deployment_without_status_is_missing_status() {
    let d = Deployment { metadata: ObjectMeta { name: Some("d".to_string()) }, status: None };
    assert_eq!(d.get_health_bit(), Err(HealthError::MissingStatus));
}

#[test]
fn health_bit_names() {
    assert_eq!(HealthBit::Red.as_str(), "Red");
    assert_eq!(HealthBit::Green.as_str(), "Green");
    assert_eq!(HealthBit::Yellow.as_str(), "Yellow");
    assert_eq!(HealthBit::Unknown.as_str(), "Unknown");
}
