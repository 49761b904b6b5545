//! The registry behind a reader-writer lock, shared by the watch loop
//! and any number of concurrent readers.
//!
//! The lock's invariant is the registry's well-formedness, so every
//! value a reader ever borrows — however writes interleave — is a fully
//! constructed registry: unique names, no empty history. A write holds
//! the lock for the single map mutation only; resolving an event to its
//! mutation happens outside the critical section, so a query never waits
//! on blocking work.
//!
//! What each operation computes is stated and proved on the underlying
//! [`WtfScope`]; this wrapper adds the locking discipline and nothing
//! else.

use vstd::prelude::*;
use vstd::rwlock::{RwLock, RwLockPredicate};

use crate::health::{HealthBit, Pod, ReplicaSet};
use crate::wtf_scope::{resolve_event, Event, EventError, QueryError, Time, WtfScope};

verus! {

/// The lock invariant: only well-formed registries are ever stored.
pub struct WellFormedScope;

impl RwLockPredicate<WtfScope> for WellFormedScope {
    open spec fn inv(self, v: WtfScope) -> bool {
        v.wf()
    }
}

/// A registry shared between one writer role and concurrent readers.
pub struct SharedScope {
    lock: RwLock<WtfScope, WellFormedScope>,
}

impl SharedScope {
    /// The lock is configured with the well-formedness invariant.
    pub closed spec fn wf(&self) -> bool {
        self.lock.pred() == WellFormedScope
    }

    /// A shared handle to an empty registry.
    pub fn new() -> (s: Self)
        ensures
            s.wf(),
    {
        SharedScope { lock: RwLock::new(WtfScope::new(), Ghost(WellFormedScope)) }
    }

    /// Query the last recorded health bit and timestamp of an object,
    /// reading whatever is currently stored; the result may be stale.
    ///
    /// The read lock is held only while the stored registry is read; the
    /// lock invariant guarantees that the registry borrowed here is
    /// well-formed, so no partially constructed entry is ever observed.
    pub fn get_object_health_bit(&self, object_name: &str) -> (r: Result<
        (HealthBit, Time),
        QueryError,
    >)
        requires
            self.wf(),
    {
        let read_handle = self.lock.acquire_read();
        let scope = read_handle.borrow();
        let r = scope.get_object_health_bit(object_name);
        read_handle.release_read();
        r
    }

    /// Apply one watched event: resolve it to its single mutation first,
    /// outside the critical section, then take the write lock for just
    /// the map update.
    pub fn handle_new_log_event(&self, ev: Event) -> (r: Result<(), EventError>)
        requires
            self.wf(),
        ensures
            match r {
                Ok(()) => crate::wtf_scope::spec_resolve_event(ev@) is Ok,
                Err(e) => crate::wtf_scope::spec_resolve_event(ev@) matches Err(e2) && e == e2,
            },
    {
        match resolve_event(&ev) {
            Ok(d) => {
                let (mut scope, write_handle) = self.lock.acquire_write();
                let _ = scope.update_pod_bit(
                    d.name.as_str(),
                    d.bit,
                    d.timestamp,
                    Some(d.object_type),
                );
                write_handle.release_write(scope);
                Ok(())
            },
            Err(e) => Err(e),
        }
    }

    /// Seed the shared registry from one-shot listings; the count of
    /// skipped items is returned so the caller can surface a warning.
    pub fn populate_objects(&self, pods: &Vec<Pod>, replica_sets: &Vec<ReplicaSet>) -> (skipped:
        usize)
        requires
            self.wf(),
            pods@.len() + replica_sets@.len() <= usize::MAX,
        ensures
            skipped == crate::wtf_scope::spec_skipped_pods(pods@)
                + crate::wtf_scope::spec_skipped_replica_sets(replica_sets@),
    {
        let (mut scope, write_handle) = self.lock.acquire_write();
        let skipped = scope.populate_objects(pods, replica_sets);
        write_handle.release_write(scope);
        skipped
    }

    /// Render the current registry for diagnostic display.
    pub fn render(&self) -> (r: String)
        requires
            self.wf(),
    {
        let read_handle = self.lock.acquire_read();
        let scope = read_handle.borrow();
        let r = scope.render();
        read_handle.release_read();
        r
    }
}

} // verus!
