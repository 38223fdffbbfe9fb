//! Decision logic of a small server toolkit: a concurrent storage benchmark
//! (workload slicing, per-worker access sequences, result aggregation and
//! derived metrics), plus the state machines behind its menus and its
//! firewall-port helper.
//!
//! Everything here computes on plain values. File, terminal and process work
//! is left to the caller, which feeds what it observed back in as events. The
//! one thing the library gets from outside is chance: the offsets of the
//! random patterns are drawn from the thread's random number generator.

pub mod aggregate;
pub mod cell;
pub mod errors;
pub mod keys;
pub mod matrix;
pub mod menu;
pub mod metrics;
pub mod models;
pub mod netinfo;
pub mod portlist;
pub mod portmgr;
pub mod provision;
pub mod report;
pub mod scan;
pub mod tasks;
pub mod text;
pub mod worker;
pub mod workload;
