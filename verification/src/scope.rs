//! A scope of pods within a namespace, and a cache of their health bits.
//!
//! Unlike the full registry, this cache keeps only the latest bit per
//! pod. Fetching a fresh bit from the cluster is the caller's work; the
//! cache takes the fetched bit as a plain value and is verified for every
//! value of it.

use vstd::prelude::*;

use crate::health::{str_eq, HealthBit};

verus! {

/// Why a scope operation failed.
#[derive(Clone, Copy, Debug, PartialEq, Eq, Structural)]
pub enum ScopeError {
    /// The pod was never added to this scope.
    PodNotFound,
}

/// The map a sequence of scope entries denotes.
pub open spec fn pods_map(s: Seq<(String, HealthBit)>) -> Map<Seq<char>, HealthBit>
    decreases s.len(),
{
    if s.len() == 0 {
        Map::empty()
    } else {
        pods_map(s.drop_last()).insert(s.last().0@, s.last().1)
    }
}

/// No two entries share a pod name.
pub open spec fn unique_pod_names(s: Seq<(String, HealthBit)>) -> bool {
    forall|i: int, j: int| 0 <= i < j < s.len() ==> s[i].0@ != s[j].0@
}

/// A name present in the entries is in the map, with that entry's bit.
proof fn lemma_pods_map_index(s: Seq<(String, HealthBit)>, i: int)
    requires
        unique_pod_names(s),
        0 <= i < s.len(),
    ensures
        pods_map(s).dom().contains(s[i].0@),
        pods_map(s)[s[i].0@] == s[i].1,
    decreases s.len(),
{
    if i < s.len() - 1 {
        lemma_pods_map_index(s.drop_last(), i);
        assert(s.drop_last()[i] == s[i]);
        assert(s[i].0@ != s.last().0@);
    }
}

/// A name in no entry is not in the map.
proof fn lemma_pods_map_absent(s: Seq<(String, HealthBit)>, name: Seq<char>)
    requires
        forall|i: int| 0 <= i < s.len() ==> s[i].0@ != name,
    ensures
        !pods_map(s).dom().contains(name),
    decreases s.len(),
{
    if s.len() > 0 {
        lemma_pods_map_absent(s.drop_last(), name);
    }
}

/// Replacing the entry of a name replaces just that name's bit.
proof fn lemma_pods_map_update(s: Seq<(String, HealthBit)>, i: int, e: (String, HealthBit))
    requires
        unique_pod_names(s),
        0 <= i < s.len(),
        e.0@ == s[i].0@,
    ensures
        pods_map(s.update(i, e)) =~= pods_map(s).insert(e.0@, e.1),
    decreases s.len(),
{
    let s2 = s.update(i, e);
    if i == s.len() - 1 {
        assert(s2.drop_last() =~= s.drop_last());
    } else {
        assert(s2.drop_last() =~= s.drop_last().update(i, e));
        lemma_pods_map_update(s.drop_last(), i, e);
        assert(s2.last() == s.last());
        assert(s.last().0@ != e.0@);
    }
}

/// What refreshing from a list of fetched bits makes of cache map `m`:
/// each listed pod already in the scope takes its fetched bit; a listed
/// pod outside the scope changes nothing.
pub open spec fn spec_refresh(
    m: Map<Seq<char>, HealthBit>,
    fetched: Seq<(Seq<char>, HealthBit)>,
) -> Map<Seq<char>, HealthBit>
    decreases fetched.len(),
{
    if fetched.len() == 0 {
        m
    } else {
        let m1 = if m.dom().contains(fetched[0].0) {
            m.insert(fetched[0].0, fetched[0].1)
        } else {
            m
        };
        spec_refresh(m1, fetched.drop_first())
    }
}

/// A scope of pods within a namespace, and a cache of their health bits.
#[derive(Debug, Clone)]
pub struct Scope {
    /// The cached bit of each pod in the scope.
    pub pods: Vec<(String, HealthBit)>,
}

impl View for Scope {
    type V = Map<Seq<char>, HealthBit>;

    open spec fn view(&self) -> Map<Seq<char>, HealthBit> {
        pods_map(self.pods@)
    }
}

impl Scope {
    /// Pod names are unique.
    pub open spec fn wf(&self) -> bool {
        unique_pod_names(self.pods@)
    }

    /// An empty scope. The namespace handle that fetches live statuses
    /// stays with the caller.
    pub fn new() -> (s: Self)
        ensures
            s.wf(),
            s@ == Map::<Seq<char>, HealthBit>::empty(),
    {
        Scope { pods: Vec::new() }
    }

    /// Index of the entry holding `pod_name`, if one does.
    fn find_pod(&self, pod_name: &str) -> (r: Option<usize>)
        ensures
            match r {
                Some(i) => 0 <= i < self.pods@.len() && self.pods@[i as int].0@ == pod_name@,
                None => forall|i: int| 0 <= i < self.pods@.len() ==> self.pods@[i].0@ != pod_name@,
            },
    {
        let mut i: usize = 0;
        while i < self.pods.len()
            invariant
                i <= self.pods@.len(),
                forall|j: int| 0 <= j < i ==> self.pods@[j].0@ != pod_name@,
            decreases self.pods@.len() - i,
        {
            if str_eq(self.pods[i].0.as_str(), pod_name) {
                return Some(i);
            }
            i += 1;
        }
        None
    }

    /// Add a pod to this scope, with an as-yet-unknown health bit; a pod
    /// already present is reset to unknown.
    pub fn add_to_scope(&mut self, pod_name: &String) -> (r: Result<(), ScopeError>)
        requires
            old(self).wf(),
        ensures
            final(self).wf(),
            r is Ok,
            final(self)@ == old(self)@.insert(pod_name@, HealthBit::Unknown),
    {
        self.set_pod(pod_name, HealthBit::Unknown);
        Ok(())
    }

    /// Record `bit` for `pod_name`, adding the pod if it is new.
    fn set_pod(&mut self, pod_name: &String, bit: HealthBit)
        requires
            old(self).wf(),
        ensures
            final(self).wf(),
            final(self)@ == old(self)@.insert(pod_name@, bit),
    {
        match self.find_pod(pod_name.as_str()) {
            Some(i) => {
                let _ = self.pods.remove(i);
                self.pods.insert(i, (pod_name.clone(), bit));
                proof {
                    assert(self.pods@ =~= old(self).pods@.update(i as int, self.pods@[i as int]));
                    lemma_pods_map_update(old(self).pods@, i as int, self.pods@[i as int]);
                }
            },
            None => {
                proof {
                    lemma_pods_map_absent(self.pods@, pod_name@);
                }
                self.pods.push((pod_name.clone(), bit));
                proof {
                    assert(self.pods@.drop_last() =~= old(self).pods@);
                }
            },
        }
    }

    /// Update the cache of pod statuses within this scope from a list of
    /// freshly fetched bits, one per pod the caller queried: each pod of
    /// the scope that the list names takes its fetched bit.
    pub fn update_scope(&mut self, fetched: &Vec<(String, HealthBit)>)
        requires
            old(self).wf(),
        ensures
            final(self).wf(),
            final(self)@ == spec_refresh(old(self)@, fetched.deep_view()),
    {
        proof {
            assert(fetched.deep_view().skip(0) =~= fetched.deep_view());
        }
        let mut i: usize = 0;
        while i < fetched.len()
            invariant
                self.wf(),
                i <= fetched@.len(),
                fetched.deep_view().len() == fetched@.len(),
                forall|k: int|
                    0 <= k < fetched@.len() ==> #[trigger] fetched.deep_view()[k] == (
                        fetched@[k].0@,
                        fetched@[k].1,
                    ),
                spec_refresh(old(self)@, fetched.deep_view()) == spec_refresh(
                    self@,
                    fetched.deep_view().skip(i as int),
                ),
            decreases fetched@.len() - i,
        {
            proof {
                assert(fetched.deep_view().skip(i as int)[0] == fetched.deep_view()[i as int]);
                assert(fetched.deep_view().skip(i as int).drop_first() =~= fetched.deep_view().skip(
                    i as int + 1,
                ));
            }
            let name = &fetched[i].0;
            let bit = fetched[i].1;
            match self.find_pod(name.as_str()) {
                Some(idx) => {
                    proof {
                        lemma_pods_map_index(self.pods@, idx as int);
                    }
                    self.set_pod(name, bit);
                },
                None => {
                    proof {
                        lemma_pods_map_absent(self.pods@, name@);
                    }
                },
            }
            i += 1;
        }
        proof {
            assert(fetched.deep_view().skip(fetched.deep_view().len() as int) =~= Seq::<
                (Seq<char>, HealthBit),
            >::empty());
        }
    }

    /// Query the state of a pod within this scope. With no fresh bit at
    /// hand the cached status is returned; a fresh bit (the caller's
    /// latest fetch from the cluster) is recorded first and then
    /// returned. A pod outside the scope is reported, fresh bit or not.
    pub fn query_pod(&mut self, pod_name: &String, update: Option<HealthBit>) -> (r: Result<
        HealthBit,
        ScopeError,
    >)
        requires
            old(self).wf(),
        ensures
            final(self).wf(),
            !old(self)@.dom().contains(pod_name@) ==> r == Result::<
                HealthBit,
                ScopeError,
            >::Err(ScopeError::PodNotFound) && *final(self) == *old(self),
            old(self)@.dom().contains(pod_name@) && update is Some ==> r == Result::<
                HealthBit,
                ScopeError,
            >::Ok(update->0) && final(self)@ == old(self)@.insert(pod_name@, update->0),
            old(self)@.dom().contains(pod_name@) && update is None ==> r == Result::<
                HealthBit,
                ScopeError,
            >::Ok(old(self)@[pod_name@]) && *final(self) == *old(self),
    {
        match self.find_pod(pod_name.as_str()) {
            Some(i) => {
                proof {
                    lemma_pods_map_index(self.pods@, i as int);
                }
                match update {
                    Some(bit) => {
                        self.set_pod(pod_name, bit);
                        Ok(bit)
                    },
                    None => Ok(self.pods[i].1),
                }
            },
            None => {
                proof {
                    lemma_pods_map_absent(self.pods@, pod_name@);
                }
                Err(ScopeError::PodNotFound)
            },
        }
    }
}

} // verus!
