use delta_operator::options::OptionsMap;
use delta_operator::types::Action;
use delta_operator::types::DeltaTable;
use delta_operator::types::DeltaTableMaintenceConfiguration;
use delta_operator::types::DeltaTableSpec;
use delta_operator::types::DeltaTableStatus;
use delta_operator::types::DeltaTableVacuumConfiguration;
use delta_operator::types::MaintenanceCriteria;
use delta_operator::types::ObjectMetadata;

fn table(
    checkpoint: Option<DeltaTableMaintenceConfiguration>,
    vacuum: Option<DeltaTableVacuumConfiguration>,
    status: Option<DeltaTableStatus>,
) -> DeltaTable {
    DeltaTable {
        metadata: ObjectMetadata {
            name: "table-one".to_owned(),
            namespace: Some("default".to_owned()),
            annotations: OptionsMap::new(),
            deletion_timestamp: None,
            has_finalizer: true,
        },
        spec: DeltaTableSpec {
            name: "table_one".to_owned(),
            table_uri: "memory://table".to_owned(),
            allow_http: None,
            schema: "{}".to_owned(),
            partition_columns: vec![],
            checkpoint_configuration: checkpoint,
            optimize_configuration: None,
            vacuum_configuration: vacuum,
            storage_options: None,
            storage_options_from: None,
            configuration: None,
        },
        status,
    }
}

fn status_with_checkpoint(commit: Option<i64>, timestamp: Option<i64>) -> DeltaTableStatus {
    DeltaTableStatus {
        table_uri: String::new(),
        schema: String::new(),
        last_checkpoint_commit: commit,
        last_checkpoint_timestamp: timestamp,
        last_vacuum_commit: None,
        last_vacuum_timestamp: None,
        last_optimize_commit: None,
        last_optimize_timestamp: None,
        version: None,
        is_healthy: None,
    }
}

const NOW: i64 = 1_700_000_000;

#[test]
fn test_disabled_never_due() {
    // Whatever the recorded status or version, disabled wins.
    let cases: Vec<(Option<i64>, Option<i64>, i64)> = vec![
        (None, None, 0),
        (Some(0), Some(0), 1_000_000),
        (Some(NOW), Some(500), 501),
    ];
    for (timestamp, commit, version) in cases {
        for criteria in [
            None,
            Some(MaintenanceCriteria::Time),
            Some(MaintenanceCriteria::Commit),
            Some(MaintenanceCriteria::TimeAndCommit),
        ] {
            let t = table(
                Some(DeltaTableMaintenceConfiguration {
                    time_interval: Some(0),
                    commit_interval: Some(0),
                    disable: Some(true),
                    criteria,
                }),
                None,
                Some(status_with_checkpoint(commit, timestamp)),
            );
            assert!(!t.requires_checkpoint(version, NOW));
        }
    }
}

#[test]
fn test_time_and_commit_is_disjunction() {
    // 3 x 3 matrix: timestamp absent / old / recent, commit absent / old /
    // recent, with a one-day time interval and a ten-commit interval.
    let day: u64 = 86_400;
    let version: i64 = 100;
    let timestamps = [None, Some(NOW - 2 * 86_400), Some(NOW - 3_600)];
    let commits = [None, Some(version - 20), Some(version - 1)];
    for timestamp in timestamps {
        for commit in commits {
            let due_by_time = match timestamp {
                None => true,
                Some(last) => NOW - last >= day as i64,
            };
            let due_by_commit = match commit {
                None => true,
                Some(last) => version - last >= 10,
            };
            let t = table(
                Some(DeltaTableMaintenceConfiguration {
                    time_interval: Some(day),
                    commit_interval: Some(10),
                    disable: None,
                    criteria: Some(MaintenanceCriteria::TimeAndCommit),
                }),
                None,
                Some(status_with_checkpoint(commit, timestamp)),
            );
            assert_eq!(
                due_by_time || due_by_commit,
                t.requires_checkpoint(version, NOW)
            );
        }
    }
}

#[test]
fn test_checkpoint_due_by_commit_distance() {
    // commit_interval 10, last commit 5: version 16 is due (11 >= 10),
    // version 14 is not (9 < 10).
    let t = table(
        Some(DeltaTableMaintenceConfiguration {
            time_interval: None,
            commit_interval: Some(10),
            disable: None,
            criteria: Some(MaintenanceCriteria::Commit),
        }),
        None,
        Some(status_with_checkpoint(Some(5), Some(NOW))),
    );
    assert!(t.requires_checkpoint(16, NOW));
    assert!(!t.requires_checkpoint(14, NOW));
}

#[test]
fn test_first_pass_vacuum_due() {
    // No status recorded and a vacuum configuration with the default Time
    // criteria: the first evaluation is due.
    let t = table(
        None,
        Some(DeltaTableVacuumConfiguration {
            time_interval: None,
            commit_interval: None,
            disable: None,
            retention_period: None,
            criteria: None,
        }),
        None,
    );
    assert!(t.requires_vacuum(0, NOW));
    let queue = t.due_actions(0, NOW);
    assert_eq!(vec![Action::Vacuum], queue);
}

#[test]
fn test_absent_config_never_due() {
    let t = table(None, None, None);
    assert!(!t.requires_checkpoint(1_000, NOW));
    assert!(!t.requires_vacuum(1_000, NOW));
    assert!(!t.requires_optimize(1_000, NOW));
    assert!(t.due_actions(1_000, NOW).is_empty());
}

#[test]
fn test_default_vacuum_interval_is_thirty_days() {
    let vacuum = |timestamp: i64| {
        let mut status = status_with_checkpoint(None, None);
        status.last_vacuum_timestamp = Some(timestamp);
        table(
            None,
            Some(DeltaTableVacuumConfiguration {
                time_interval: None,
                commit_interval: None,
                disable: None,
                retention_period: None,
                criteria: Some(MaintenanceCriteria::Time),
            }),
            Some(status),
        )
    };
    let thirty_days: i64 = 2_592_000;
    assert!(vacuum(NOW - thirty_days).requires_vacuum(0, NOW));
    assert!(!vacuum(NOW - thirty_days + 1).requires_vacuum(0, NOW));
}

#[test]
fn test_default_checkpoint_commit_interval_is_ten() {
    let t = |version: i64| {
        table(
            Some(DeltaTableMaintenceConfiguration {
                time_interval: None,
                commit_interval: None,
                disable: None,
                criteria: Some(MaintenanceCriteria::Commit),
            }),
            None,
            Some(status_with_checkpoint(Some(0), None)),
        )
        .requires_checkpoint(version, NOW)
    };
    assert!(t(10));
    assert!(!t(9));
}

#[test]
fn test_due_actions_order_is_vacuum_checkpoint_optimize() {
    let mut t = table(
        Some(DeltaTableMaintenceConfiguration {
            time_interval: None,
            commit_interval: None,
            disable: None,
            criteria: None,
        }),
        Some(DeltaTableVacuumConfiguration {
            time_interval: None,
            commit_interval: None,
            disable: None,
            retention_period: None,
            criteria: None,
        }),
        None,
    );
    t.spec.optimize_configuration = Some(DeltaTableMaintenceConfiguration {
        time_interval: None,
        commit_interval: None,
        disable: None,
        criteria: None,
    });
    let queue = t.due_actions(0, NOW);
    assert_eq!(
        vec![Action::Vacuum, Action::Checkpoint, Action::Optimize],
        queue
    );
}
