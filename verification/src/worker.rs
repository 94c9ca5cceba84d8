//! The worker's side of the protocol: which table-store operation an action
//! means, the retention window vacuum carries, and the status patch and
//! event reported after success.

use vstd::prelude::*;
use vstd::string::*;

use crate::reconcile::EventSpec;
use crate::types::Action;
use crate::types::DeltaTable;
use crate::types::StatusPatch;

verus! {

/// The table-store operation a worker performs.
#[derive(Clone, Debug)]
pub enum TableOp {
    Checkpoint,
    Optimize,
    Vacuum { retention_millis: Option<i64> },
}

/// The retention window in milliseconds: the configured seconds where they
/// fit, and the largest representable window where they do not.
pub open spec fn retention_millis_spec(secs: u64) -> i64 {
    if secs <= (i64::MAX / 1000) as u64 {
        (secs * 1000) as i64
    } else {
        i64::MAX
    }
}

/// Converts a configured retention period to milliseconds, saturating where
/// the configured seconds exceed what a millisecond count can hold.
pub fn vacuum_retention_millis(secs: u64) -> (r: i64)
    ensures
        r == retention_millis_spec(secs),
{
    if secs <= (i64::MAX / 1000) as u64 {
        (secs * 1000) as i64
    } else {
        i64::MAX
    }
}

impl DeltaTable {
    /// The retention window this resource configures for vacuum, if any.
    pub open spec fn vacuum_retention_spec(&self) -> Option<i64> {
        match self.spec.vacuum_configuration {
            Some(c) => match c.retention_period {
                Some(secs) => Some(retention_millis_spec(secs)),
                None => None,
            },
            None => None,
        }
    }

    /// The table-store operation for `action` on this resource: vacuum
    /// carries the configured retention window.
    pub fn worker_table_op(&self, action: Action) -> (op: TableOp)
        ensures
            action is Checkpoint ==> op is Checkpoint,
            action is Optimize ==> op is Optimize,
            action is Vacuum ==> op == (TableOp::Vacuum {
                retention_millis: self.vacuum_retention_spec(),
            }),
    {
        match action {
            Action::Checkpoint => TableOp::Checkpoint,
            Action::Optimize => TableOp::Optimize,
            Action::Vacuum => {
                let retention_millis = match &self.spec.vacuum_configuration {
                    Some(c) => match c.retention_period {
                        Some(secs) => Some(vacuum_retention_millis(secs)),
                        None => None,
                    },
                    None => None,
                };
                TableOp::Vacuum { retention_millis }
            },
        }
    }
}

/// The status patch a worker publishes after performing `action`: exactly
/// that action's last-commit and last-timestamp, set to the table's version
/// after the operation and the completion time; no other field changes.
pub fn worker_status_patch(action: Action, version: i64, now: i64) -> (p: StatusPatch)
    ensures
        p.table_uri is None,
        p.schema is None,
        p.version is None,
        p.is_healthy is None,
        p.last_checkpoint_commit == (if action is Checkpoint {
            Some(version)
        } else {
            None::<i64>
        }),
        p.last_checkpoint_timestamp == (if action is Checkpoint {
            Some(now)
        } else {
            None::<i64>
        }),
        p.last_optimize_commit == (if action is Optimize {
            Some(version)
        } else {
            None::<i64>
        }),
        p.last_optimize_timestamp == (if action is Optimize {
            Some(now)
        } else {
            None::<i64>
        }),
        p.last_vacuum_commit == (if action is Vacuum {
            Some(version)
        } else {
            None::<i64>
        }),
        p.last_vacuum_timestamp == (if action is Vacuum {
            Some(now)
        } else {
            None::<i64>
        }),
{
    let mut p = StatusPatch::empty();
    match action {
        Action::Checkpoint => {
            p.last_checkpoint_commit = Some(version);
            p.last_checkpoint_timestamp = Some(now);
        },
        Action::Optimize => {
            p.last_optimize_commit = Some(version);
            p.last_optimize_timestamp = Some(now);
        },
        Action::Vacuum => {
            p.last_vacuum_commit = Some(version);
            p.last_vacuum_timestamp = Some(now);
        },
    }
    p
}

/// The event a worker publishes after success: reason
/// `{action} requested by controller`, the note `Success`, and the action's
/// name.
pub fn worker_success_event(action: Action) -> (e: EventSpec)
    ensures
        !e.warning,
        e.reason@ == action.display_name() + " requested by controller"@,
        e.note matches Some(note) && note@ == "Success"@,
        e.action@ == action.display_name(),
{
    let mut reason = String::from_str(action.as_str());
    reason.append(" requested by controller");
    EventSpec {
        warning: false,
        reason,
        note: Some(String::from_str("Success")),
        action: String::from_str(action.as_str()),
    }
}

} // verus!
