//! The resource health registry: a map from resource name to a
//! timestamped, append-only history of health bits.
//!
//! A `ResourceStatus` is created on first observation and never deleted; a
//! resource removed from the cluster is marked unhealthy rather than
//! evicted, so a later query still finds a last-known state. The kind
//! recorded at creation is immutable: later updates naming a different
//! kind do not overwrite it.

use vstd::prelude::*;
use vstd::string::StringExecFns;

use crate::health::{str_eq, HealthBit, Pod, QueryableResource, ReplicaSet};
use crate::health::{spec_pod_health_bit, spec_replica_set_health_bit};
use crate::pattern::{match_log_msg, spec_deleted_pod_target, spec_log_target, spec_log_verdict};

verus! {

/// The kinds of cluster resource the registry tracks.
///
/// `Deployment` is carried as a variant but never populated by the
/// population routine; it is reserved for deployment tracking.
#[derive(Clone, Copy, Debug, PartialEq, Eq, Structural)]
pub enum ResourceType {
    Pod,
    Deployment,
    ReplicaSet,
}

/// Textual name of a resource type.
pub open spec fn spec_resource_type_str(t: ResourceType) -> Seq<char> {
    match t {
        ResourceType::Pod => "Pod"@,
        ResourceType::Deployment => "Deployment"@,
        ResourceType::ReplicaSet => "ReplicaSet"@,
    }
}

/// The resource type a kind string names, if it names one.
pub open spec fn spec_resource_type_of(s: Seq<char>) -> Option<ResourceType> {
    if s == "Pod"@ {
        Some(ResourceType::Pod)
    } else if s == "Deployment"@ {
        Some(ResourceType::Deployment)
    } else if s == "ReplicaSet"@ {
        Some(ResourceType::ReplicaSet)
    } else {
        None
    }
}

impl ResourceType {
    /// Parse a kind string; an unrecognized string is reported, not a
    /// crash, since cluster APIs may introduce new kinds over time.
    pub fn from_str(input: &str) -> (r: Option<ResourceType>)
        ensures
            r == spec_resource_type_of(input@),
    {
        if str_eq(input, "Pod") {
            Some(ResourceType::Pod)
        } else if str_eq(input, "Deployment") {
            Some(ResourceType::Deployment)
        } else if str_eq(input, "ReplicaSet") {
            Some(ResourceType::ReplicaSet)
        } else {
            None
        }
    }

    /// Textual name of the type, as used in diagnostic renderings.
    pub fn as_str(&self) -> (r: &'static str)
        ensures
            r@ == spec_resource_type_str(*self),
    {
        match self {
            ResourceType::Pod => "Pod",
            ResourceType::Deployment => "Deployment",
            ResourceType::ReplicaSet => "ReplicaSet",
        }
    }
}

/// An event timestamp, in seconds relative to the Unix epoch.
#[derive(Clone, Copy, Debug, PartialEq, Eq, Structural)]
pub struct Time {
    pub secs: i64,
}

/// The sentinel "earliest possible" timestamp, used where a signal carries
/// no timestamp of its own, so that any real timestamp supersedes it.
pub open spec fn spec_earliest_time() -> Time {
    Time { secs: i64::MIN }
}

impl Time {
    /// The sentinel "earliest possible" timestamp.
    pub fn earliest() -> (t: Time)
        ensures
            t == spec_earliest_time(),
    {
        Time { secs: i64::MIN }
    }
}

/// Mathematical content of a `ResourceStatus`.
pub struct StatusView {
    /// The recorded history, oldest first.
    pub health_bit: Seq<(HealthBit, Time)>,
    /// The kind recorded when the resource was first observed.
    pub object_type: ResourceType,
}

/// Timestamped history of health bits of one tracked resource, and the
/// kind it was first observed as.
#[derive(Debug, Clone)]
pub struct ResourceStatus {
    /// The recorded history, oldest first; never empty.
    pub health_bit: Vec<(HealthBit, Time)>,
    /// The kind recorded at first observation, immutable thereafter.
    pub object_type: ResourceType,
}

impl View for ResourceStatus {
    type V = StatusView;

    open spec fn view(&self) -> StatusView {
        StatusView { health_bit: self.health_bit@, object_type: self.object_type }
    }
}

/// One registry entry: a resource name and its status.
#[derive(Debug, Clone)]
pub struct ScopeEntry {
    pub name: String,
    pub status: ResourceStatus,
}

/// The map a sequence of registry entries denotes.
pub open spec fn map_of(s: Seq<ScopeEntry>) -> Map<Seq<char>, StatusView>
    decreases s.len(),
{
    if s.len() == 0 {
        Map::empty()
    } else {
        map_of(s.drop_last()).insert(s.last().name@, s.last().status@)
    }
}

/// No two entries share a name.
pub open spec fn unique_names(s: Seq<ScopeEntry>) -> bool {
    forall|i: int, j: int| 0 <= i < j < s.len() ==> s[i].name@ != s[j].name@
}

/// A name present in the entries is in the map, with that entry's status.
pub proof fn lemma_map_of_index(s: Seq<ScopeEntry>, i: int)
    requires
        unique_names(s),
        0 <= i < s.len(),
    ensures
        map_of(s).dom().contains(s[i].name@),
        map_of(s)[s[i].name@] == s[i].status@,
    decreases s.len(),
{
    if i < s.len() - 1 {
        lemma_map_of_index(s.drop_last(), i);
        assert(s.drop_last()[i] == s[i]);
        assert(s[i].name@ != s.last().name@);
    }
}

/// A name in no entry is not in the map.
pub proof fn lemma_map_of_absent(s: Seq<ScopeEntry>, name: Seq<char>)
    requires
        forall|i: int| 0 <= i < s.len() ==> s[i].name@ != name,
    ensures
        !map_of(s).dom().contains(name),
    decreases s.len(),
{
    if s.len() > 0 {
        lemma_map_of_absent(s.drop_last(), name);
    }
}

/// Replacing the entry of a name replaces just that name's value in the
/// map.
pub proof fn lemma_map_of_update(s: Seq<ScopeEntry>, i: int, e: ScopeEntry)
    requires
        unique_names(s),
        0 <= i < s.len(),
        e.name@ == s[i].name@,
    ensures
        map_of(s.update(i, e)) =~= map_of(s).insert(e.name@, e.status@),
    decreases s.len(),
{
    let s2 = s.update(i, e);
    if i == s.len() - 1 {
        assert(s2.drop_last() =~= s.drop_last());
        assert(s2.last() == e);
    } else {
        assert(s2.drop_last() =~= s.drop_last().update(i, e));
        lemma_map_of_update(s.drop_last(), i, e);
        assert(s2.last() == s.last());
        assert(s.last().name@ != e.name@);
    }
}

/// Why an update could not be recorded.
#[derive(Clone, Copy, Debug, PartialEq, Eq, Structural)]
pub enum UpdateError {
    /// A resource was named for the first time without a kind to record.
    MissingObjectType,
}

/// Why a query returned no health bit.
#[derive(Clone, Copy, Debug, PartialEq, Eq, Structural)]
pub enum QueryError {
    /// The name was never observed, by population or by any event.
    NotFound,
}

/// The descriptive message of a failed query: it identifies the
/// unresolved name.
pub open spec fn spec_not_found_message(name: Seq<char>) -> Seq<char> {
    "Object '"@ + name + "' not found!"@
}

/// Render the descriptive message of a failed query for `object_name`.
pub fn not_found_message(object_name: &str) -> (r: String)
    ensures
        r@ == spec_not_found_message(object_name@),
{
    let mut out = String::new();
    out.append("Object '");
    out.append(object_name);
    out.append("' not found!");
    proof {
        assert(out@ =~= spec_not_found_message(object_name@));
    }
    out
}

/// The status a history append leaves behind: the same kind, one more
/// entry at the tail.
pub open spec fn spec_appended(v: StatusView, bit: HealthBit, ts: Time) -> StatusView {
    StatusView { health_bit: v.health_bit.push((bit, ts)), object_type: v.object_type }
}

/// The status a first observation records.
pub open spec fn spec_fresh_status(t: ResourceType, bit: HealthBit, ts: Time) -> StatusView {
    StatusView { health_bit: seq![(bit, ts)], object_type: t }
}

/// What an upsert of `(bit, ts)` under `name`, claiming kind `t`, makes of
/// registry map `m`: an append to a present name (its recorded kind wins),
/// a fresh one-entry history for an absent one.
pub open spec fn spec_upsert(
    m: Map<Seq<char>, StatusView>,
    name: Seq<char>,
    t: ResourceType,
    bit: HealthBit,
    ts: Time,
) -> Map<Seq<char>, StatusView> {
    if m.dom().contains(name) {
        m.insert(name, spec_appended(m[name], bit, ts))
    } else {
        m.insert(name, spec_fresh_status(t, bit, ts))
    }
}

/// A scope of resources within a namespace, and a cache of their health
/// bit histories: the registry itself.
#[derive(Debug, Clone)]
pub struct WtfScope {
    /// The tracked resources, in order of first observation.
    pub objects: Vec<ScopeEntry>,
}

impl View for WtfScope {
    type V = Map<Seq<char>, StatusView>;

    open spec fn view(&self) -> Map<Seq<char>, StatusView> {
        map_of(self.objects@)
    }
}

impl WtfScope {
    /// Entry names are unique and every history is non-empty. The latter
    /// is the registry's core invariant: a status is created atomically
    /// with its first history entry.
    pub open spec fn wf(&self) -> bool {
        &&& unique_names(self.objects@)
        &&& forall|i: int|
            0 <= i < self.objects@.len() ==> self.objects@[i].status.health_bit@.len() >= 1
    }

    /// An empty registry.
    pub fn new() -> (s: Self)
        ensures
            s.wf(),
            s@ == Map::<Seq<char>, StatusView>::empty(),
            s.objects@.len() == 0,
    {
        WtfScope { objects: Vec::new() }
    }

    /// Index of the entry holding `object_name`, if one does.
    fn find_index(&self, object_name: &str) -> (r: Option<usize>)
        ensures
            match r {
                Some(i) => 0 <= i < self.objects@.len() && self.objects@[i as int].name@
                    == object_name@,
                None => forall|i: int|
                    0 <= i < self.objects@.len() ==> self.objects@[i].name@ != object_name@,
            },
    {
        let mut i: usize = 0;
        while i < self.objects.len()
            invariant
                i <= self.objects@.len(),
                forall|j: int| 0 <= j < i ==> self.objects@[j].name@ != object_name@,
            decreases self.objects@.len() - i,
        {
            if str_eq(self.objects[i].name.as_str(), object_name) {
                return Some(i);
            }
            i += 1;
        }
        None
    }

    /// Record `(bit, timestamp)` for `object_name`: append to its history
    /// if the name is known, else create it with the claimed kind. The
    /// first-seen kind wins; a later claim of a different kind changes
    /// nothing. A first observation without a kind cannot be recorded and
    /// leaves the registry unchanged.
    pub fn update_pod_bit(
        &mut self,
        object_name: &str,
        bit: HealthBit,
        timestamp: Time,
        object_type: Option<ResourceType>,
    ) -> (r: Result<(), UpdateError>)
        requires
            old(self).wf(),
        ensures
            final(self).wf(),
            old(self)@.dom().contains(object_name@) ==> r is Ok && final(self)@ == old(self)@.insert(
                object_name@,
                spec_appended(old(self)@[object_name@], bit, timestamp),
            ),
            !old(self)@.dom().contains(object_name@) && object_type is Some ==> r is Ok && final(self)@
                == old(self)@.insert(
                object_name@,
                spec_fresh_status(object_type->0, bit, timestamp),
            ),
            !old(self)@.dom().contains(object_name@) && object_type is None ==> r
                == Result::<(), UpdateError>::Err(UpdateError::MissingObjectType) && *final(self)
                == *old(self),
            object_type is Some ==> r is Ok && final(self)@ == spec_upsert(
                old(self)@,
                object_name@,
                object_type->0,
                bit,
                timestamp,
            ),
    {
        match self.find_index(object_name) {
            Some(i) => {
                proof {
                    lemma_map_of_index(self.objects@, i as int);
                }
                let mut entry = self.objects.remove(i);
                entry.status.health_bit.push((bit, timestamp));
                self.objects.insert(i, entry);
                proof {
                    assert(self.objects@ =~= old(self).objects@.update(
                        i as int,
                        self.objects@[i as int],
                    ));
                    lemma_map_of_update(old(self).objects@, i as int, self.objects@[i as int]);
                }
                Ok(())
            },
            None => {
                proof {
                    lemma_map_of_absent(self.objects@, object_name@);
                }
                match object_type {
                    Some(t) => {
                        let mut history: Vec<(HealthBit, Time)> = Vec::new();
                        history.push((bit, timestamp));
                        let entry = ScopeEntry {
                            name: object_name.to_owned(),
                            status: ResourceStatus { health_bit: history, object_type: t },
                        };
                        self.objects.push(entry);
                        proof {
                            assert(self.objects@.drop_last() =~= old(self).objects@);
                            assert(self.objects@.last().status@ == spec_fresh_status(
                                t,
                                bit,
                                timestamp,
                            ));
                        }
                        Ok(())
                    },
                    None => Err(UpdateError::MissingObjectType),
                }
            },
        }
    }

    /// Query the last recorded health bit and timestamp of an object
    /// within this scope.
    ///
    /// The result may be stale, and is likely to be so if the event watch
    /// loop is not running. An unknown name is a normal outcome, not a
    /// fault: early in the process lifetime it can mean "not yet
    /// populated".
    pub fn get_object_health_bit(&self, object_name: &str) -> (r: Result<
        (HealthBit, Time),
        QueryError,
    >)
        requires
            self.wf(),
        ensures
            match r {
                Ok(p) => self@.dom().contains(object_name@) && p
                    == self@[object_name@].health_bit.last(),
                Err(e) => e == QueryError::NotFound && !self@.dom().contains(object_name@),
            },
    {
        match self.find_index(object_name) {
            Some(i) => {
                proof {
                    lemma_map_of_index(self.objects@, i as int);
                }
                let history = &self.objects[i].status.health_bit;
                let last = history[history.len() - 1];
                Ok(last)
            },
            None => {
                proof {
                    lemma_map_of_absent(self.objects@, object_name@);
                }
                Err(QueryError::NotFound)
            },
        }
    }
}

/// Reference to the object a cluster event concerns.
#[derive(Debug, Clone)]
pub struct ObjectReference {
    pub kind: Option<String>,
    pub name: Option<String>,
}

/// A cluster event as the watch loop sees it: a severity, an involved
/// object, a free-text message and a timestamp, each possibly absent.
#[derive(Debug, Clone)]
pub struct Event {
    /// Event severity, `Normal` or `Warning` in practice.
    pub type_: Option<String>,
    pub involved_object: ObjectReference,
    pub message: Option<String>,
    pub last_timestamp: Option<Time>,
}

/// Mathematical content of an `Event`.
pub struct EventView {
    pub type_: Option<Seq<char>>,
    pub kind: Option<Seq<char>>,
    pub name: Option<Seq<char>>,
    pub message: Option<Seq<char>>,
    pub last_timestamp: Option<Time>,
}

impl View for Event {
    type V = EventView;

    open spec fn view(&self) -> EventView {
        EventView {
            type_: self.type_.deep_view(),
            kind: self.involved_object.kind.deep_view(),
            name: self.involved_object.name.deep_view(),
            message: self.message.deep_view(),
            last_timestamp: self.last_timestamp,
        }
    }
}

/// The message text an event is taken to carry; absent text reads as
/// `none`.
pub open spec fn spec_event_message(ev: EventView) -> Seq<char> {
    match ev.message {
        Some(m) => m,
        None => "none"@,
    }
}

/// The timestamp an event carries, or the earliest-possible sentinel.
pub open spec fn spec_event_time(ev: EventView) -> Time {
    match ev.last_timestamp {
        Some(t) => t,
        None => spec_earliest_time(),
    }
}

/// Generic event-type classification, the fallback when no log pattern
/// matches: severity `Normal` means healthy, `Warning` or anything else
/// (an absent severity included) means transitional.
pub open spec fn spec_event_bit(ev: EventView) -> HealthBit {
    match ev.type_ {
        Some(t) => if t == "Normal"@ {
            HealthBit::Green
        } else {
            HealthBit::Yellow
        },
        None => HealthBit::Yellow,
    }
}

/// Why an event could not be applied to the registry. Each is a local,
/// per-event condition: the watch loop logs it and goes on.
#[derive(Clone, Copy, Debug, PartialEq, Eq, Structural)]
pub enum EventError {
    /// The event's involved object has no name.
    MissingName,
    /// The event's involved object has no kind string.
    MissingKind,
    /// The involved object's kind string names no known resource type.
    UnrecognizedKind,
}

/// The resource type an event's involved object resolves to, where the
/// event carries enough to resolve one.
pub open spec fn spec_resolved_kind(ev: EventView) -> Result<ResourceType, EventError> {
    match ev.name {
        None => Err(EventError::MissingName),
        Some(_) => match ev.kind {
            None => Err(EventError::MissingKind),
            Some(k) => match spec_resource_type_of(k) {
                Some(t) => Ok(t),
                None => Err(EventError::UnrecognizedKind),
            },
        },
    }
}

/// The single registry mutation an event resolves to: the pattern table
/// is consulted first and its verdict wins; the rule's own target (a
/// pod) is the one updated where it names one, the involved object
/// otherwise; with no matching pattern the involved object takes the
/// generic event-type bit.
pub open spec fn spec_resolve_event(ev: EventView) -> Result<
    (Seq<char>, ResourceType, HealthBit, Time),
    EventError,
> {
    let msg = spec_event_message(ev);
    let ts = spec_event_time(ev);
    match spec_log_verdict(msg) {
        Some(v) => match spec_log_target(msg) {
            Some(t) => Ok((t, ResourceType::Pod, v, ts)),
            None => match spec_resolved_kind(ev) {
                Ok(k) => Ok((ev.name->0, k, v, ts)),
                Err(e) => Err(e),
            },
        },
        None => match spec_resolved_kind(ev) {
            Ok(k) => Ok((ev.name->0, k, spec_event_bit(ev), ts)),
            Err(e) => Err(e),
        },
    }
}

/// What processing one event makes of registry map `m`: the upsert it
/// resolves to, or the reason it resolves to none.
pub open spec fn spec_handle_event(m: Map<Seq<char>, StatusView>, ev: EventView) -> Result<
    Map<Seq<char>, StatusView>,
    EventError,
> {
    match spec_resolve_event(ev) {
        Ok(d) => Ok(spec_upsert(m, d.0, d.1, d.2, d.3)),
        Err(e) => Err(e),
    }
}

/// The one registry mutation an event calls for.
#[derive(Debug, Clone)]
pub struct UpsertDecision {
    pub name: String,
    pub object_type: ResourceType,
    pub bit: HealthBit,
    pub timestamp: Time,
}

/// Resolve an event to the registry mutation it calls for, without
/// touching the registry. This is the whole of event processing but the
/// map write itself, so a caller can keep it outside any critical
/// section.
pub fn resolve_event(ev: &Event) -> (r: Result<UpsertDecision, EventError>)
    ensures
        match r {
            Ok(d) => spec_resolve_event(ev@) == Ok::<_, EventError>(
                (d.name@, d.object_type, d.bit, d.timestamp),
            ),
            Err(e) => spec_resolve_event(ev@) == Err::<
                (Seq<char>, ResourceType, HealthBit, Time),
                _,
            >(e),
        },
{
    let timestamp = match &ev.last_timestamp {
        Some(t) => *t,
        None => Time::earliest(),
    };
    let msg: String = match &ev.message {
        Some(m) => m.clone(),
        None => "none".to_owned(),
    };
    match match_log_msg(msg.as_str()) {
        Some(rule) => match rule.target {
            Some(target) => Ok(
                UpsertDecision {
                    name: target,
                    object_type: ResourceType::Pod,
                    bit: rule.verdict,
                    timestamp,
                },
            ),
            None => {
                let name = match &ev.involved_object.name {
                    Some(n) => n.clone(),
                    None => {
                        return Err(EventError::MissingName);
                    },
                };
                let kind = match &ev.involved_object.kind {
                    Some(k) => k.clone(),
                    None => {
                        return Err(EventError::MissingKind);
                    },
                };
                let object_type = match ResourceType::from_str(kind.as_str()) {
                    Some(t) => t,
                    None => {
                        return Err(EventError::UnrecognizedKind);
                    },
                };
                Ok(UpsertDecision { name, object_type, bit: rule.verdict, timestamp })
            },
        },
        None => {
            let name = match &ev.involved_object.name {
                Some(n) => n.clone(),
                None => {
                    return Err(EventError::MissingName);
                },
            };
            let kind = match &ev.involved_object.kind {
                Some(k) => k.clone(),
                None => {
                    return Err(EventError::MissingKind);
                },
            };
            let object_type = match ResourceType::from_str(kind.as_str()) {
                Some(t) => t,
                None => {
                    return Err(EventError::UnrecognizedKind);
                },
            };
            let bit = WtfScope::health_bit_from_event(ev);
            Ok(UpsertDecision { name, object_type, bit, timestamp })
        },
    }
}

impl WtfScope {
    /// Classify an event by its severity alone.
    pub fn health_bit_from_event(ev: &Event) -> (r: HealthBit)
        ensures
            r == spec_event_bit(ev@),
    {
        match &ev.type_ {
            Some(t) => if str_eq(t.as_str(), "Normal") {
                HealthBit::Green
            } else {
                HealthBit::Yellow
            },
            None => HealthBit::Yellow,
        }
    }

    /// Apply the deleted-pod rule of the pattern table to a log message:
    /// where the message reports a deleted pod, mark that pod unhealthy.
    ///
    /// Marking it, rather than removing its entry, is deliberate: a later
    /// query must still resolve the name to a last-known state.
    pub fn handle_log_msg(&mut self, msg: &str, timestamp: Time) -> (r: Result<(), UpdateError>)
        requires
            old(self).wf(),
        ensures
            final(self).wf(),
            r is Ok,
            match spec_deleted_pod_target(msg@) {
                Some(t) => final(self)@ == spec_upsert(
                    old(self)@,
                    t,
                    ResourceType::Pod,
                    HealthBit::Red,
                    timestamp,
                ),
                None => *final(self) == *old(self),
            },
    {
        match crate::pattern::find_deleted_pod(msg) {
            Some(pod_to_delete) => self.update_pod_bit(
                pod_to_delete.as_str(),
                HealthBit::Red,
                timestamp,
                Some(ResourceType::Pod),
            ),
            None => Ok(()),
        }
    }

    /// Apply one watched event to the registry: consult the pattern table
    /// first (its verdict wins over the event's severity), fall back to
    /// the severity classification, and record the result under the
    /// resolved target name.
    ///
    /// An event that cannot be resolved (no involved-object name, no kind,
    /// an unrecognized kind string) is reported and leaves the registry
    /// unchanged; it must never terminate the watch loop.
    pub fn handle_new_log_event(&mut self, ev: Event) -> (r: Result<(), EventError>)
        requires
            old(self).wf(),
        ensures
            final(self).wf(),
            match r {
                Ok(()) => spec_handle_event(old(self)@, ev@) == Ok::<
                    Map<Seq<char>, StatusView>,
                    EventError,
                >(final(self)@),
                Err(e) => spec_handle_event(old(self)@, ev@) == Err::<
                    Map<Seq<char>, StatusView>,
                    EventError,
                >(e) && *final(self) == *old(self),
            },
    {
        match resolve_event(&ev) {
            Ok(d) => {
                let _ = self.update_pod_bit(
                    d.name.as_str(),
                    d.bit,
                    d.timestamp,
                    Some(d.object_type),
                );
                Ok(())
            },
            Err(e) => Err(e),
        }
    }
}

/// A listed pod is seeded where it has a name and classifies; it is
/// skipped otherwise.
pub open spec fn spec_pod_skipped(pod: Pod) -> bool {
    pod.metadata.name is None || spec_pod_health_bit(pod) is Err
}

/// What seeding one listed pod makes of registry map `m`.
pub open spec fn spec_seed_pod(m: Map<Seq<char>, StatusView>, pod: Pod) -> Map<
    Seq<char>,
    StatusView,
> {
    match pod.metadata.name {
        Some(name) => match spec_pod_health_bit(pod) {
            Ok(bit) => spec_upsert(m, name@, ResourceType::Pod, bit, spec_earliest_time()),
            Err(_) => m,
        },
        None => m,
    }
}

/// What seeding a listing of pods, in order, makes of registry map `m`.
pub open spec fn spec_seed_pods(m: Map<Seq<char>, StatusView>, pods: Seq<Pod>) -> Map<
    Seq<char>,
    StatusView,
>
    decreases pods.len(),
{
    if pods.len() == 0 {
        m
    } else {
        spec_seed_pods(spec_seed_pod(m, pods[0]), pods.drop_first())
    }
}

/// How many listed pods seeding skips.
pub open spec fn spec_skipped_pods(pods: Seq<Pod>) -> int
    decreases pods.len(),
{
    if pods.len() == 0 {
        0
    } else {
        (if spec_pod_skipped(pods[0]) {
            1int
        } else {
            0int
        }) + spec_skipped_pods(pods.drop_first())
    }
}

/// A listed replica set is seeded where it has a name and classifies.
pub open spec fn spec_replica_set_skipped(rs: ReplicaSet) -> bool {
    rs.metadata.name is None || spec_replica_set_health_bit(rs) is Err
}

/// What seeding one listed replica set makes of registry map `m`.
pub open spec fn spec_seed_replica_set(m: Map<Seq<char>, StatusView>, rs: ReplicaSet) -> Map<
    Seq<char>,
    StatusView,
> {
    match rs.metadata.name {
        Some(name) => match spec_replica_set_health_bit(rs) {
            Ok(bit) => spec_upsert(m, name@, ResourceType::ReplicaSet, bit, spec_earliest_time()),
            Err(_) => m,
        },
        None => m,
    }
}

/// What seeding a listing of replica sets, in order, makes of map `m`.
pub open spec fn spec_seed_replica_sets(
    m: Map<Seq<char>, StatusView>,
    sets: Seq<ReplicaSet>,
) -> Map<Seq<char>, StatusView>
    decreases sets.len(),
{
    if sets.len() == 0 {
        m
    } else {
        spec_seed_replica_sets(spec_seed_replica_set(m, sets[0]), sets.drop_first())
    }
}

/// How many listed replica sets seeding skips.
pub open spec fn spec_skipped_replica_sets(sets: Seq<ReplicaSet>) -> int
    decreases sets.len(),
{
    if sets.len() == 0 {
        0
    } else {
        (if spec_replica_set_skipped(sets[0]) {
            1int
        } else {
            0int
        }) + spec_skipped_replica_sets(sets.drop_first())
    }
}

/// The diagnostic line rendered for one registry entry.
pub open spec fn spec_render_entry(e: ScopeEntry) -> Seq<char> {
    "object '"@ + e.name@ + "' of type "@ + spec_resource_type_str(e.status.object_type)
        + " has health bit "@ + crate::health::spec_health_bit_str(
        e.status.health_bit@.last().0,
    ) + "\n"@
}

/// The diagnostic rendering of a sequence of registry entries.
pub open spec fn spec_render(s: Seq<ScopeEntry>) -> Seq<char>
    decreases s.len(),
{
    if s.len() == 0 {
        Seq::empty()
    } else {
        spec_render(s.drop_last()) + spec_render_entry(s.last())
    }
}

impl WtfScope {
    /// Seed the registry from one-shot listings of the current pods and
    /// replica sets, classifying each and recording an initial entry with
    /// the earliest-possible timestamp, so that any real event timestamp
    /// supersedes it in ordering intent.
    ///
    /// An item that cannot be seeded (no name, or a status that does not
    /// classify) is skipped, never a reason to stop: the returned count
    /// of skipped items lets the caller surface a warning rather than
    /// swallow the degradation. Deployment tracking is not populated.
    pub fn populate_objects(&mut self, pods: &Vec<Pod>, replica_sets: &Vec<ReplicaSet>) -> (skipped:
        usize)
        requires
            old(self).wf(),
            pods@.len() + replica_sets@.len() <= usize::MAX,
        ensures
            final(self).wf(),
            final(self)@ == spec_seed_replica_sets(
                spec_seed_pods(old(self)@, pods@),
                replica_sets@,
            ),
            skipped == spec_skipped_pods(pods@) + spec_skipped_replica_sets(replica_sets@),
    {
        proof {
            assert(pods@.skip(0) =~= pods@);
        }
        let mut skipped: usize = 0;
        let mut i: usize = 0;
        while i < pods.len()
            invariant
                old(self).wf(),
                self.wf(),
                i <= pods@.len(),
                pods@.len() + replica_sets@.len() <= usize::MAX,
                skipped <= i,
                spec_seed_pods(old(self)@, pods@) == spec_seed_pods(self@, pods@.skip(i as int)),
                skipped == spec_skipped_pods(pods@) - spec_skipped_pods(pods@.skip(i as int)),
            decreases pods@.len() - i,
        {
            proof {
                assert(pods@.skip(i as int)[0] == pods@[i as int]);
                assert(pods@.skip(i as int).drop_first() =~= pods@.skip(i as int + 1));
            }
            let pod = &pods[i];
            match &pod.metadata.name {
                Some(name) => match pod.get_health_bit() {
                    Ok(bit) => {
                        let _ = self.update_pod_bit(
                            name.as_str(),
                            bit,
                            Time::earliest(),
                            Some(ResourceType::Pod),
                        );
                    },
                    Err(_) => {
                        skipped += 1;
                    },
                },
                None => {
                    skipped += 1;
                },
            }
            i += 1;
        }
        proof {
            assert(pods@.skip(pods@.len() as int) =~= Seq::<Pod>::empty());
        }
        let seeded = Ghost(self@);
        proof {
            assert(replica_sets@.skip(0) =~= replica_sets@);
        }
        let mut j: usize = 0;
        while j < replica_sets.len()
            invariant
                self.wf(),
                j <= replica_sets@.len(),
                pods@.len() + replica_sets@.len() <= usize::MAX,
                skipped <= pods@.len() + j,
                spec_seed_replica_sets(seeded@, replica_sets@) == spec_seed_replica_sets(
                    self@,
                    replica_sets@.skip(j as int),
                ),
                skipped == spec_skipped_pods(pods@) + spec_skipped_replica_sets(replica_sets@)
                    - spec_skipped_replica_sets(replica_sets@.skip(j as int)),
            decreases replica_sets@.len() - j,
        {
            proof {
                assert(replica_sets@.skip(j as int)[0] == replica_sets@[j as int]);
                assert(replica_sets@.skip(j as int).drop_first() =~= replica_sets@.skip(
                    j as int + 1,
                ));
            }
            let rset = &replica_sets[j];
            match &rset.metadata.name {
                Some(name) => match rset.get_health_bit() {
                    Ok(bit) => {
                        let _ = self.update_pod_bit(
                            name.as_str(),
                            bit,
                            Time::earliest(),
                            Some(ResourceType::ReplicaSet),
                        );
                    },
                    Err(_) => {
                        skipped += 1;
                    },
                },
                None => {
                    skipped += 1;
                },
            }
            j += 1;
        }
        proof {
            assert(replica_sets@.skip(replica_sets@.len() as int) =~= Seq::<ReplicaSet>::empty());
        }
        skipped
    }

    /// Render the full registry for diagnostic display: one line per
    /// resource, in order of first observation.
    #[verifier::rlimit(50)]
    pub fn render(&self) -> (r: String)
        requires
            self.wf(),
        ensures
            r@ == spec_render(self.objects@),
    {
        let mut out = String::new();
        let mut i: usize = 0;
        while i < self.objects.len()
            invariant
                self.wf(),
                i <= self.objects@.len(),
                out@ == spec_render(self.objects@.subrange(0, i as int)),
            decreases self.objects@.len() - i,
        {
            let entry = &self.objects[i];
            out.append("object '");
            out.append(entry.name.as_str());
            out.append("' of type ");
            out.append(entry.status.object_type.as_str());
            out.append(" has health bit ");
            let history = &entry.status.health_bit;
            out.append(history[history.len() - 1].0.as_str());
            out.append("\n");
            proof {
                let prefix = self.objects@.subrange(0, i as int + 1);
                assert(prefix.drop_last() =~= self.objects@.subrange(0, i as int));
                assert(prefix.last() == self.objects@[i as int]);
                assert(out@ =~= spec_render(prefix));
            }
            i += 1;
        }
        proof {
            assert(self.objects@.subrange(0, self.objects@.len() as int) =~= self.objects@);
        }
        out
    }
}

/// A sequence of upserts on one name, applied in order; each carries the
/// kind it claims and the history entry it records.
pub open spec fn spec_apply_upserts(
    m: Map<Seq<char>, StatusView>,
    name: Seq<char>,
    ops: Seq<(ResourceType, HealthBit, Time)>,
) -> Map<Seq<char>, StatusView>
    decreases ops.len(),
{
    if ops.len() == 0 {
        m
    } else {
        spec_apply_upserts(
            spec_upsert(m, name, ops[0].0, ops[0].1, ops[0].2),
            name,
            ops.drop_first(),
        )
    }
}

/// The history entries a sequence of upserts records, in order.
pub open spec fn spec_ops_entries(ops: Seq<(ResourceType, HealthBit, Time)>) -> Seq<
    (HealthBit, Time),
> {
    Seq::new(ops.len(), |k: int| (ops[k].1, ops[k].2))
}

/// The history is append-only: a sequence of upserts on one name leaves
/// every prior entry in place and appends exactly its own entries, in
/// order, so a name absent at the start holds one entry per upsert. No
/// other name is created, removed or changed.
pub proof fn lemma_history_append_only(
    m: Map<Seq<char>, StatusView>,
    name: Seq<char>,
    ops: Seq<(ResourceType, HealthBit, Time)>,
)
    ensures
        spec_apply_upserts(m, name, ops).dom().contains(name) <==> (m.dom().contains(name)
            || ops.len() > 0),
        m.dom().contains(name) ==> spec_apply_upserts(m, name, ops)[name].health_bit == m[name].health_bit
            + spec_ops_entries(ops),
        !m.dom().contains(name) && ops.len() > 0 ==> spec_apply_upserts(m, name, ops)[name].health_bit
            == spec_ops_entries(ops),
        forall|n: Seq<char>|
            n != name ==> #[trigger] spec_apply_upserts(m, name, ops).dom().contains(n)
                == m.dom().contains(n),
        forall|n: Seq<char>|
            n != name && m.dom().contains(n) ==> #[trigger] spec_apply_upserts(m, name, ops)[n]
                == m[n],
    decreases ops.len(),
{
    if ops.len() == 0 {
        assert(spec_ops_entries(ops) =~= Seq::<(HealthBit, Time)>::empty());
        if m.dom().contains(name) {
            assert(m[name].health_bit + spec_ops_entries(ops) =~= m[name].health_bit);
        }
    } else {
        let op = ops[0];
        let m1 = spec_upsert(m, name, op.0, op.1, op.2);
        lemma_history_append_only(m1, name, ops.drop_first());
        if m.dom().contains(name) {
            assert(m1[name].health_bit == m[name].health_bit.push((op.1, op.2)));
            assert(m[name].health_bit.push((op.1, op.2)) + spec_ops_entries(ops.drop_first())
                =~= m[name].health_bit + spec_ops_entries(ops));
        } else {
            assert(m1[name].health_bit == seq![(op.1, op.2)]);
            assert(seq![(op.1, op.2)] + spec_ops_entries(ops.drop_first()) =~= spec_ops_entries(
                ops,
            ));
        }
    }
}

/// The kind is immutable: the kind a name holds after any sequence of
/// upserts is the kind recorded when it was first observed — the one it
/// already had, or the first upsert's claim — whatever kinds later
/// upserts claim.
pub proof fn lemma_kind_immutable(
    m: Map<Seq<char>, StatusView>,
    name: Seq<char>,
    ops: Seq<(ResourceType, HealthBit, Time)>,
)
    ensures
        m.dom().contains(name) ==> spec_apply_upserts(m, name, ops)[name].object_type
            == m[name].object_type,
        !m.dom().contains(name) && ops.len() > 0 ==> spec_apply_upserts(
            m,
            name,
            ops,
        )[name].object_type == ops[0].0,
    decreases ops.len(),
{
    if ops.len() > 0 {
        let op = ops[0];
        let m1 = spec_upsert(m, name, op.0, op.1, op.2);
        lemma_kind_immutable(m1, name, ops.drop_first());
    }
}

/// Deletion is retained, not evicted: an event whose message names a
/// deleted pod is applied as an unhealthy mark on that pod, which is then
/// present in the registry with `Red` as its current bit — and no name
/// present before is removed.
pub proof fn lemma_deletion_retained(m: Map<Seq<char>, StatusView>, ev: EventView)
    requires
        spec_log_target(spec_event_message(ev)) is Some,
    ensures
        spec_handle_event(m, ev) is Ok,
        spec_handle_event(m, ev)->Ok_0.dom().contains(spec_log_target(spec_event_message(ev))->0),
        spec_handle_event(m, ev)->Ok_0[spec_log_target(spec_event_message(ev))->0].health_bit.last()
            == (HealthBit::Red, spec_event_time(ev)),
        forall|n: Seq<char>|
            m.dom().contains(n) ==> #[trigger] spec_handle_event(m, ev)->Ok_0.dom().contains(n),
{
    let msg = spec_event_message(ev);
    let t = spec_log_target(msg)->0;
    assert(spec_log_verdict(msg) == Some(HealthBit::Red));
    let m2 = spec_upsert(m, t, ResourceType::Pod, HealthBit::Red, spec_event_time(ev));
    if m.dom().contains(t) {
        assert(m2[t].health_bit.last() == (HealthBit::Red, spec_event_time(ev)));
    } else {
        assert(m2[t].health_bit == seq![(HealthBit::Red, spec_event_time(ev))]);
    }
}

/// A pattern match overrides the event-type fallback: an event whose
/// message contains `Liveness probe failed` is applied as `Red` on its
/// involved object whatever its severity — in particular a severity of
/// `Normal` does not turn it `Green`.
pub proof fn lemma_pattern_precedence(m: Map<Seq<char>, StatusView>, ev: EventView)
    requires
        crate::pattern::contains_seq(spec_event_message(ev), "Liveness probe failed"@),
        spec_resolved_kind(ev) is Ok,
    ensures
        spec_handle_event(m, ev) is Ok,
        spec_handle_event(m, ev)->Ok_0.dom().contains(ev.name->0),
        spec_handle_event(m, ev)->Ok_0[ev.name->0].health_bit.last() == (
            HealthBit::Red,
            spec_event_time(ev),
        ),
{
    let msg = spec_event_message(ev);
    assert(spec_log_verdict(msg) == Some(HealthBit::Red));
    assert(spec_log_target(msg) is None);
    let k = spec_resolved_kind(ev)->Ok_0;
    let m2 = spec_upsert(m, ev.name->0, k, HealthBit::Red, spec_event_time(ev));
    if m.dom().contains(ev.name->0) {
        assert(m2[ev.name->0].health_bit.last() == (HealthBit::Red, spec_event_time(ev)));
    } else {
        assert(m2[ev.name->0].health_bit == seq![(HealthBit::Red, spec_event_time(ev))]);
    }
}

} // verus!
