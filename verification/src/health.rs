//! Classification of raw resource status shapes into health bits.
//!
//! The resource types here mirror the status fields that the cluster API
//! reports for pods, replica sets and deployments; they carry exactly the
//! plain values the classifier reads, so that classification is a total,
//! verified function of those values.

use vstd::prelude::*;
use vstd::string::StrSliceExecFns;

verus! {

/// Four-valued simplified health classification of a tracked resource.
#[derive(Clone, Copy, Debug, PartialEq, Eq, Structural)]
pub enum HealthBit {
    Red,
    Green,
    Yellow,
    Unknown,
}

impl DeepView for HealthBit {
    type V = HealthBit;

    open spec fn deep_view(&self) -> HealthBit {
        *self
    }
}

impl HealthBit {
    /// Textual name of the bit, as used in diagnostic renderings.
    pub fn as_str(&self) -> (r: &'static str)
        ensures
            r@ == spec_health_bit_str(*self),
    {
        match self {
            HealthBit::Red => "Red",
            HealthBit::Green => "Green",
            HealthBit::Yellow => "Yellow",
            HealthBit::Unknown => "Unknown",
        }
    }
}

/// Textual name of a health bit.
pub open spec fn spec_health_bit_str(b: HealthBit) -> Seq<char> {
    match b {
        HealthBit::Red => "Red"@,
        HealthBit::Green => "Green"@,
        HealthBit::Yellow => "Yellow"@,
        HealthBit::Unknown => "Unknown"@,
    }
}

/// Why a resource's status could not be classified.
///
/// Both variants are local, recoverable conditions: the caller skips the
/// one item and goes on.
#[derive(Clone, Copy, Debug, PartialEq, Eq, Structural)]
pub enum HealthError {
    /// The resource (or its phase field) carries no status to classify.
    MissingStatus,
    /// The status phase string is none of the known phase values.
    UnrecognizedPhase,
}

/// The five pod phase values the classifier recognizes.
#[derive(Clone, Copy, Debug, PartialEq, Eq, Structural)]
pub enum SimplePodStatus {
    Pending,
    Running,
    Succeeded,
    Failed,
    Unknown,
}

/// Name metadata of a listed resource.
#[derive(Debug, Clone)]
pub struct ObjectMeta {
    pub name: Option<String>,
}

/// Status shape of a pod: the reported phase string, if any.
#[derive(Debug, Clone)]
pub struct PodStatus {
    pub phase: Option<String>,
}

/// A pod as the classifier sees it: a name and an optional status.
#[derive(Debug, Clone)]
pub struct Pod {
    pub metadata: ObjectMeta,
    pub status: Option<PodStatus>,
}

/// Status shape of a replica set: desired and ready replica counts.
#[derive(Debug, Clone)]
pub struct ReplicaSetStatus {
    pub replicas: i32,
    pub ready_replicas: Option<i32>,
}

/// A replica set as the classifier sees it.
#[derive(Debug, Clone)]
pub struct ReplicaSet {
    pub metadata: ObjectMeta,
    pub status: Option<ReplicaSetStatus>,
}

/// Status shape of a deployment: the unavailable replica count.
#[derive(Debug, Clone)]
pub struct DeploymentStatus {
    pub unavailable_replicas: Option<i32>,
}

/// A deployment as the classifier sees it.
#[derive(Debug, Clone)]
pub struct Deployment {
    pub metadata: ObjectMeta,
    pub status: Option<DeploymentStatus>,
}

/// A resource whose status shape can be classified into a health bit.
pub trait QueryableResource {
    /// The classification this resource's status must map to.
    spec fn spec_health_bit(&self) -> Result<HealthBit, HealthError>;

    /// Classify this resource's status into a health bit.
    fn get_health_bit(&self) -> (r: Result<HealthBit, HealthError>)
        ensures
            r == self.spec_health_bit(),
    ;
}

/// The pod phase named by a phase string, if it is one of the known values.
pub open spec fn spec_pod_status_of(phase: Seq<char>) -> Result<
    SimplePodStatus,
    HealthError,
> {
    if phase == "Succeeded"@ {
        Ok(SimplePodStatus::Succeeded)
    } else if phase == "Failed"@ {
        Ok(SimplePodStatus::Failed)
    } else if phase == "Running"@ {
        Ok(SimplePodStatus::Running)
    } else if phase == "Pending"@ {
        Ok(SimplePodStatus::Pending)
    } else if phase == "Unknown"@ {
        Ok(SimplePodStatus::Unknown)
    } else {
        Err(HealthError::UnrecognizedPhase)
    }
}

/// What a pod's status shape classifies to: phase first, then the
/// phase-to-bit mapping.
pub open spec fn spec_pod_health_bit(pod: Pod) -> Result<HealthBit, HealthError> {
    if pod.status is Some && pod.status->0.phase is Some {
        match spec_pod_status_of(pod.status->0.phase->0@) {
            Ok(SimplePodStatus::Succeeded) => Ok(HealthBit::Green),
            Ok(SimplePodStatus::Running) => Ok(HealthBit::Green),
            Ok(SimplePodStatus::Failed) => Ok(HealthBit::Red),
            Ok(SimplePodStatus::Pending) => Ok(HealthBit::Yellow),
            Ok(SimplePodStatus::Unknown) => Ok(HealthBit::Red),
            Err(e) => Err(e),
        }
    } else {
        Err(HealthError::MissingStatus)
    }
}

/// Map a pod's phase string to a `SimplePodStatus`.
///
/// A pod with no status, or a status with no phase, cannot be classified;
/// an unexpected phase string is reported rather than crashing, since the
/// cluster may introduce new values over time.
pub fn get_pod_status(pod: &Pod) -> (r: Result<SimplePodStatus, HealthError>)
    ensures
        (pod.status is Some && pod.status->0.phase is Some) ==> r
            == spec_pod_status_of(pod.status->0.phase->0@),
        !(pod.status is Some && pod.status->0.phase is Some) ==> r
            == Result::<SimplePodStatus, HealthError>::Err(HealthError::MissingStatus),
{
    match &pod.status {
        Some(status) => match &status.phase {
            Some(phase) => {
                if str_eq(phase.as_str(), "Succeeded") {
                    Ok(SimplePodStatus::Succeeded)
                } else if str_eq(phase.as_str(), "Failed") {
                    Ok(SimplePodStatus::Failed)
                } else if str_eq(phase.as_str(), "Running") {
                    Ok(SimplePodStatus::Running)
                } else if str_eq(phase.as_str(), "Pending") {
                    Ok(SimplePodStatus::Pending)
                } else if str_eq(phase.as_str(), "Unknown") {
                    Ok(SimplePodStatus::Unknown)
                } else {
                    Err(HealthError::UnrecognizedPhase)
                }
            },
            None => Err(HealthError::MissingStatus),
        },
        None => Err(HealthError::MissingStatus),
    }
}

impl QueryableResource for Pod {
    open spec fn spec_health_bit(&self) -> Result<HealthBit, HealthError> {
        spec_pod_health_bit(*self)
    }

    /// Succeeded and Running pods are healthy, Pending ones transitional,
    /// Failed and Unknown ones unhealthy.
    fn get_health_bit(&self) -> (r: Result<HealthBit, HealthError>) {
        match get_pod_status(self)? {
            SimplePodStatus::Succeeded => Ok(HealthBit::Green),
            SimplePodStatus::Running => Ok(HealthBit::Green),
            SimplePodStatus::Failed => Ok(HealthBit::Red),
            SimplePodStatus::Pending => Ok(HealthBit::Yellow),
            SimplePodStatus::Unknown => Ok(HealthBit::Red),
        }
    }
}

/// What a replica set's status shape classifies to: all desired replicas
/// ready means healthy, anything else unhealthy.
pub open spec fn spec_replica_set_health_bit(rs: ReplicaSet) -> Result<
    HealthBit,
    HealthError,
> {
    match rs.status {
        Some(status) => {
            let ready: i32 = match status.ready_replicas {
                Some(n) => n,
                None => 0,
            };
            if ready == status.replicas {
                Ok(HealthBit::Green)
            } else {
                Ok(HealthBit::Red)
            }
        },
        None => Err(HealthError::MissingStatus),
    }
}

impl QueryableResource for ReplicaSet {
    open spec fn spec_health_bit(&self) -> Result<HealthBit, HealthError> {
        spec_replica_set_health_bit(*self)
    }

    /// Ready replicas (absent counted as zero) equal to the desired count
    /// means healthy, otherwise unhealthy.
    fn get_health_bit(&self) -> (r: Result<HealthBit, HealthError>) {
        match &self.status {
            Some(status) => {
                let ready: i32 = match status.ready_replicas {
                    Some(n) => n,
                    None => 0,
                };
                if ready == status.replicas {
                    Ok(HealthBit::Green)
                } else {
                    Ok(HealthBit::Red)
                }
            },
            None => Err(HealthError::MissingStatus),
        }
    }
}

/// What a deployment's status shape classifies to: any unavailable replica
/// means unhealthy.
pub open spec fn spec_deployment_health_bit(d: Deployment) -> Result<
    HealthBit,
    HealthError,
> {
    match d.status {
        Some(status) => {
            let unavailable: i32 = match status.unavailable_replicas {
                Some(n) => n,
                None => 0,
            };
            if unavailable > 0 {
                Ok(HealthBit::Red)
            } else {
                Ok(HealthBit::Green)
            }
        },
        None => Err(HealthError::MissingStatus),
    }
}

impl QueryableResource for Deployment {
    open spec fn spec_health_bit(&self) -> Result<HealthBit, HealthError> {
        spec_deployment_health_bit(*self)
    }

    /// Any unavailable replica (absent counted as zero) means unhealthy.
    fn get_health_bit(&self) -> (r: Result<HealthBit, HealthError>) {
        match &self.status {
            Some(status) => {
                let unavailable: i32 = match status.unavailable_replicas {
                    Some(n) => n,
                    None => 0,
                };
                if unavailable > 0 {
                    Ok(HealthBit::Red)
                } else {
                    Ok(HealthBit::Green)
                }
            },
            None => Err(HealthError::MissingStatus),
        }
    }
}

/// Character-for-character string equality.
pub fn str_eq(a: &str, b: &str) -> (r: bool)
    ensures
        r == (a@ == b@),
{
    let a_len = a.unicode_len();
    let b_len = b.unicode_len();
    if a_len != b_len {
        assert(a@.len() != b@.len());
        return false;
    }
    let mut i: usize = 0;
    while i < a_len
        invariant
            i <= a_len,
            a_len == a@.len(),
            b_len == b@.len(),
            a_len == b_len,
            forall|j: int| 0 <= j < i ==> a@[j] == b@[j],
        decreases a_len - i,
    {
        if a.get_char(i) != b.get_char(i) {
            return false;
        }
        i += 1;
    }
    assert(a@ =~= b@);
    true
}

} // verus!
