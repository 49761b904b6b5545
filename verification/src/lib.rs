//! A resource health registry for a container-orchestration cluster.
//!
//! Raw lifecycle signals (pod phases, replica counts, cluster events and
//! their log messages) are classified into a four-valued health indicator,
//! and a registry keeps a timestamped, append-only history of those
//! indicators per resource name.

pub mod health;
pub mod monitor;
pub mod pattern;
pub mod scope;
pub mod shared;
pub mod wtf_scope;
