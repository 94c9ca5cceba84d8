//! The maintenance decision engine: one parameterized due/not-due evaluation,
//! instantiated per action with its defaults, over the action's recorded
//! last-timestamp/last-commit and the table's current version.

use vstd::prelude::*;

use crate::types::Action;
use crate::types::DeltaTable;
use crate::types::MaintenanceCriteria;

verus! {

/// Default elapsed-time windows, in seconds: thirty days for vacuum and a day
/// for checkpoint and optimize.
pub const DEFAULT_VACUUM_INTERVAL_SECS: u64 = 2_592_000;

pub const DEFAULT_CHECKPOINT_INTERVAL_SECS: u64 = 86_400;

pub const DEFAULT_OPTIMIZE_INTERVAL_SECS: u64 = 86_400;

/// Default commit distances.
pub const DEFAULT_VACUUM_COMMIT_INTERVAL: i64 = 100;

pub const DEFAULT_CHECKPOINT_COMMIT_INTERVAL: i64 = 10;

pub const DEFAULT_OPTIMIZE_COMMIT_INTERVAL: i64 = 50;

/// The criteria that applies when none is configured.
pub open spec fn criteria_or_default(c: Option<MaintenanceCriteria>) -> MaintenanceCriteria {
    match c {
        Some(c) => c,
        None => MaintenanceCriteria::Time,
    }
}

/// Due on the time axis: no prior timestamp, or at least the configured
/// interval (else the action default) has elapsed.
pub open spec fn due_by_time(
    last_timestamp: Option<i64>,
    now: i64,
    time_interval: Option<u64>,
    default_secs: u64,
) -> bool {
    match last_timestamp {
        None => true,
        Some(last) => now - last >= (match time_interval {
            Some(secs) => secs as int,
            None => default_secs as int,
        }),
    }
}

/// Due on the commit axis: no prior commit, or the table has advanced by at
/// least the configured interval (else the action default).
pub open spec fn due_by_commit(
    last_commit: Option<i64>,
    version: i64,
    commit_interval: Option<i32>,
    default_commits: i64,
) -> bool {
    match last_commit {
        None => true,
        Some(last) => version - last >= (match commit_interval {
            Some(commits) => commits as int,
            None => default_commits as int,
        }),
    }
}

/// The whole evaluation for one present configuration: disabled overrides
/// everything, then the criteria picks the axis, with `TimeAndCommit`
/// satisfied by either axis alone.
pub open spec fn config_due(
    criteria: Option<MaintenanceCriteria>,
    disable: Option<bool>,
    last_timestamp: Option<i64>,
    time_interval: Option<u64>,
    default_secs: u64,
    last_commit: Option<i64>,
    commit_interval: Option<i32>,
    default_commits: i64,
    version: i64,
    now: i64,
) -> bool {
    if disable == Some(true) {
        false
    } else {
        match criteria_or_default(criteria) {
            MaintenanceCriteria::Time => due_by_time(last_timestamp, now, time_interval, default_secs),
            MaintenanceCriteria::Commit => due_by_commit(
                last_commit,
                version,
                commit_interval,
                default_commits,
            ),
            MaintenanceCriteria::TimeAndCommit => due_by_time(
                last_timestamp,
                now,
                time_interval,
                default_secs,
            ) || due_by_commit(last_commit, version, commit_interval, default_commits),
        }
    }
}

/// A configuration with `disable = true` is never due, whatever the recorded
/// status, the table version or the clock say.
pub proof fn lemma_disabled_never_due(
    criteria: Option<MaintenanceCriteria>,
    last_timestamp: Option<i64>,
    time_interval: Option<u64>,
    default_secs: u64,
    last_commit: Option<i64>,
    commit_interval: Option<i32>,
    default_commits: i64,
    version: i64,
    now: i64,
)
    ensures
        !config_due(
            criteria,
            Some(true),
            last_timestamp,
            time_interval,
            default_secs,
            last_commit,
            commit_interval,
            default_commits,
            version,
            now,
        ),
{
}

/// Under `TimeAndCommit`, being due is exactly the disjunction of the two
/// axes, for every combination of recorded timestamp and commit.
pub proof fn lemma_time_and_commit_is_disjunction(
    disable: Option<bool>,
    last_timestamp: Option<i64>,
    time_interval: Option<u64>,
    default_secs: u64,
    last_commit: Option<i64>,
    commit_interval: Option<i32>,
    default_commits: i64,
    version: i64,
    now: i64,
)
    requires
        disable != Some(true),
    ensures
        config_due(
            Some(MaintenanceCriteria::TimeAndCommit),
            disable,
            last_timestamp,
            time_interval,
            default_secs,
            last_commit,
            commit_interval,
            default_commits,
            version,
            now,
        ) == (due_by_time(last_timestamp, now, time_interval, default_secs) || due_by_commit(
            last_commit,
            version,
            commit_interval,
            default_commits,
        )),
{
}

/// One parameterized evaluation, shared by the three actions; exactly
/// `config_due` for every input.
pub fn evaluate_due(
    criteria: Option<MaintenanceCriteria>,
    disable: Option<bool>,
    last_timestamp: Option<i64>,
    time_interval: Option<u64>,
    default_secs: u64,
    last_commit: Option<i64>,
    commit_interval: Option<i32>,
    default_commits: i64,
    version: i64,
    now: i64,
) -> (due: bool)
    ensures
        due == config_due(
            criteria,
            disable,
            last_timestamp,
            time_interval,
            default_secs,
            last_commit,
            commit_interval,
            default_commits,
            version,
            now,
        ),
{
    if let Some(true) = disable {
        return false;
    }
    let criteria_value = match criteria {
        Some(c) => c,
        None => MaintenanceCriteria::Time,
    };
    let time_due = match last_timestamp {
        None => true,
        Some(last) => {
            let threshold: i128 = match time_interval {
                Some(secs) => secs as i128,
                None => default_secs as i128,
            };
            (now as i128) - (last as i128) >= threshold
        },
    };
    let commit_due = match last_commit {
        None => true,
        Some(last) => {
            let threshold: i128 = match commit_interval {
                Some(commits) => commits as i128,
                None => default_commits as i128,
            };
            (version as i128) - (last as i128) >= threshold
        },
    };
    match criteria_value {
        MaintenanceCriteria::Time => time_due,
        MaintenanceCriteria::Commit => commit_due,
        MaintenanceCriteria::TimeAndCommit => time_due || commit_due,
    }
}

impl DeltaTable {
    /// The recorded last timestamp for vacuum; an absent status records
    /// nothing.
    pub open spec fn last_vacuum_timestamp(&self) -> Option<i64> {
        match self.status {
            Some(s) => s.last_vacuum_timestamp,
            None => None,
        }
    }

    pub open spec fn last_vacuum_commit(&self) -> Option<i64> {
        match self.status {
            Some(s) => s.last_vacuum_commit,
            None => None,
        }
    }

    pub open spec fn last_checkpoint_timestamp(&self) -> Option<i64> {
        match self.status {
            Some(s) => s.last_checkpoint_timestamp,
            None => None,
        }
    }

    pub open spec fn last_checkpoint_commit(&self) -> Option<i64> {
        match self.status {
            Some(s) => s.last_checkpoint_commit,
            None => None,
        }
    }

    pub open spec fn last_optimize_timestamp(&self) -> Option<i64> {
        match self.status {
            Some(s) => s.last_optimize_timestamp,
            None => None,
        }
    }

    pub open spec fn last_optimize_commit(&self) -> Option<i64> {
        match self.status {
            Some(s) => s.last_optimize_commit,
            None => None,
        }
    }

    /// Vacuum is due: a configuration is present, not disabled, and its
    /// criteria holds at `version` and `now`.
    pub open spec fn vacuum_due(&self, version: i64, now: i64) -> bool {
        match self.spec.vacuum_configuration {
            None => false,
            Some(c) => config_due(
                c.criteria,
                c.disable,
                self.last_vacuum_timestamp(),
                c.time_interval,
                DEFAULT_VACUUM_INTERVAL_SECS,
                self.last_vacuum_commit(),
                c.commit_interval,
                DEFAULT_VACUUM_COMMIT_INTERVAL,
                version,
                now,
            ),
        }
    }

    pub open spec fn checkpoint_due(&self, version: i64, now: i64) -> bool {
        match self.spec.checkpoint_configuration {
            None => false,
            Some(c) => config_due(
                c.criteria,
                c.disable,
                self.last_checkpoint_timestamp(),
                c.time_interval,
                DEFAULT_CHECKPOINT_INTERVAL_SECS,
                self.last_checkpoint_commit(),
                c.commit_interval,
                DEFAULT_CHECKPOINT_COMMIT_INTERVAL,
                version,
                now,
            ),
        }
    }

    pub open spec fn optimize_due(&self, version: i64, now: i64) -> bool {
        match self.spec.optimize_configuration {
            None => false,
            Some(c) => config_due(
                c.criteria,
                c.disable,
                self.last_optimize_timestamp(),
                c.time_interval,
                DEFAULT_OPTIMIZE_INTERVAL_SECS,
                self.last_optimize_commit(),
                c.commit_interval,
                DEFAULT_OPTIMIZE_COMMIT_INTERVAL,
                version,
                now,
            ),
        }
    }

    /// Decides whether vacuum is due at `version` and `now`.
    pub fn requires_vacuum(&self, version: i64, now: i64) -> (due: bool)
        ensures
            due == self.vacuum_due(version, now),
    {
        match &self.spec.vacuum_configuration {
            None => false,
            Some(c) => {
                let (last_timestamp, last_commit) = match &self.status {
                    Some(s) => (s.last_vacuum_timestamp, s.last_vacuum_commit),
                    None => (None, None),
                };
                evaluate_due(
                    c.criteria,
                    c.disable,
                    last_timestamp,
                    c.time_interval,
                    DEFAULT_VACUUM_INTERVAL_SECS,
                    last_commit,
                    c.commit_interval,
                    DEFAULT_VACUUM_COMMIT_INTERVAL,
                    version,
                    now,
                )
            },
        }
    }

    /// Decides whether checkpoint is due at `version` and `now`.
    pub fn requires_checkpoint(&self, version: i64, now: i64) -> (due: bool)
        ensures
            due == self.checkpoint_due(version, now),
    {
        match &self.spec.checkpoint_configuration {
            None => false,
            Some(c) => {
                let (last_timestamp, last_commit) = match &self.status {
                    Some(s) => (s.last_checkpoint_timestamp, s.last_checkpoint_commit),
                    None => (None, None),
                };
                evaluate_due(
                    c.criteria,
                    c.disable,
                    last_timestamp,
                    c.time_interval,
                    DEFAULT_CHECKPOINT_INTERVAL_SECS,
                    last_commit,
                    c.commit_interval,
                    DEFAULT_CHECKPOINT_COMMIT_INTERVAL,
                    version,
                    now,
                )
            },
        }
    }

    /// Decides whether optimize is due at `version` and `now`.
    pub fn requires_optimize(&self, version: i64, now: i64) -> (due: bool)
        ensures
            due == self.optimize_due(version, now),
    {
        match &self.spec.optimize_configuration {
            None => false,
            Some(c) => {
                let (last_timestamp, last_commit) = match &self.status {
                    Some(s) => (s.last_optimize_timestamp, s.last_optimize_commit),
                    None => (None, None),
                };
                evaluate_due(
                    c.criteria,
                    c.disable,
                    last_timestamp,
                    c.time_interval,
                    DEFAULT_OPTIMIZE_INTERVAL_SECS,
                    last_commit,
                    c.commit_interval,
                    DEFAULT_OPTIMIZE_COMMIT_INTERVAL,
                    version,
                    now,
                )
            },
        }
    }

    /// The actions due at `version` and `now`, in the fixed evaluation order
    /// vacuum, checkpoint, optimize.
    pub open spec fn due_actions_spec(&self, version: i64, now: i64) -> Seq<Action> {
        (if self.vacuum_due(version, now) {
            seq![Action::Vacuum]
        } else {
            Seq::empty()
        }) + (if self.checkpoint_due(version, now) {
            seq![Action::Checkpoint]
        } else {
            Seq::empty()
        }) + (if self.optimize_due(version, now) {
            seq![Action::Optimize]
        } else {
            Seq::empty()
        })
    }

    /// Evaluates the three actions in their fixed order.
    pub fn due_actions(&self, version: i64, now: i64) -> (queue: Vec<Action>)
        ensures
            queue@ == self.due_actions_spec(version, now),
    {
        let mut queue: Vec<Action> = Vec::new();
        if self.requires_vacuum(version, now) {
            queue.push(Action::Vacuum);
        }
        if self.requires_checkpoint(version, now) {
            queue.push(Action::Checkpoint);
        }
        if self.requires_optimize(version, now) {
            queue.push(Action::Optimize);
        }
        proof {
            assert(queue@ =~= self.due_actions_spec(version, now));
        }
        queue
    }
}


/// An action stands in the evaluated queue exactly when it is due; in
/// particular a disabled configuration, which is never due, is never queued.
pub proof fn lemma_queued_iff_due(t: DeltaTable, version: i64, now: i64)
    ensures
        t.due_actions_spec(version, now).contains(Action::Vacuum) == t.vacuum_due(version, now),
        t.due_actions_spec(version, now).contains(Action::Checkpoint) == t.checkpoint_due(
            version,
            now,
        ),
        t.due_actions_spec(version, now).contains(Action::Optimize) == t.optimize_due(
            version,
            now,
        ),
{
    let q = t.due_actions_spec(version, now);
    if t.vacuum_due(version, now) {
        assert(q[0] == Action::Vacuum);
        assert(q.contains(Action::Vacuum));
    }
    if t.checkpoint_due(version, now) {
        let i = if t.vacuum_due(version, now) {
            1int
        } else {
            0int
        };
        assert(q[i] == Action::Checkpoint);
        assert(q.contains(Action::Checkpoint));
    }
    if t.optimize_due(version, now) {
        assert(q.last() == Action::Optimize);
        assert(q.contains(Action::Optimize));
    }
    assert forall|i: int| 0 <= i < q.len() implies (q[i] == Action::Vacuum ==> t.vacuum_due(
        version,
        now,
    )) && (q[i] == Action::Checkpoint ==> t.checkpoint_due(version, now)) && (q[i]
        == Action::Optimize ==> t.optimize_due(version, now)) by {}
}

} // verus!
