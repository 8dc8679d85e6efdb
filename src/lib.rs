//! Coordination core of a repository watcher: a guard against overlapping
//! synchronisations, a supervisor that supersedes running commands, and a
//! batcher that coalesces status notices into digests.
pub mod text;
pub mod notify;
pub mod supervisor;
pub mod sync;
pub mod watch;
pub mod config;
