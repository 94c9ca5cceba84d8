//! Core logic of a cluster operator that keeps externally stored analytical
//! tables healthy: on every reconciliation pass it decides whether one of
//! three maintenance actions (checkpoint, optimize, vacuum) is due, resolves
//! the storage credentials the table needs, and describes the one-shot worker
//! job that performs the action.
//!
//! Everything here is pure decision logic over plain values; the surrounding
//! process performs the cluster and table-store calls and feeds their results
//! back in.

pub mod clock;
pub mod dispatch;
pub mod engine;
pub mod error;
pub mod options;
pub mod reconcile;
pub mod resolver;
pub mod text;
pub mod types;
pub mod worker;

pub use types::Action;
pub use types::MaintenanceCriteria;
pub use types::ReferenceKind;
