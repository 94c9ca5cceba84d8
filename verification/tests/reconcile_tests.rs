use delta_operator::error::Error;
use delta_operator::options::vec_to_map;
use delta_operator::options::OptionsMap;
use delta_operator::reconcile::error_policy;
use delta_operator::reconcile::reconcile_core;
use delta_operator::reconcile::reconcile_done;
use delta_operator::reconcile::reconcile_error;
use delta_operator::reconcile::reconcile_init;
use delta_operator::reconcile::Directive;
use delta_operator::reconcile::PassPlan;
use delta_operator::reconcile::ReconcileInput;
use delta_operator::reconcile::Request;
use delta_operator::reconcile::Response;
use delta_operator::reconcile::ANNOTATION_RECONCILIATION_POLICY;
use delta_operator::types::Action;
use delta_operator::types::DeltaTable;
use delta_operator::types::DeltaTableMaintenceConfiguration;
use delta_operator::types::DeltaTableSpec;
use delta_operator::types::DeltaTableStatus;
use delta_operator::types::DeltaTableVacuumConfiguration;
use delta_operator::types::JobSettings;
use delta_operator::types::MaintenanceCriteria;
use delta_operator::types::ObjectMetadata;
use delta_operator::types::ReferenceKind;
use delta_operator::types::StorageOptionReference;

fn resource() -> DeltaTable {
    DeltaTable {
        metadata: ObjectMetadata {
            name: "orders".to_owned(),
            namespace: Some("tables".to_owned()),
            annotations: OptionsMap::new(),
            deletion_timestamp: None,
            has_finalizer: true,
        },
        spec: DeltaTableSpec {
            name: "orders".to_owned(),
            table_uri: "memory://orders".to_owned(),
            allow_http: None,
            schema: "{}".to_owned(),
            partition_columns: vec![],
            checkpoint_configuration: None,
            optimize_configuration: None,
            vacuum_configuration: None,
            storage_options: None,
            storage_options_from: None,
            configuration: None,
        },
        status: Some(DeltaTableStatus::default()),
    }
}

fn input(resource: DeltaTable) -> ReconcileInput {
    ReconcileInput {
        resource,
        settings: JobSettings {
            namespace: "delta-operator-system".to_owned(),
            image: "worker:v1".to_owned(),
            labels: OptionsMap::new(),
            annotations: OptionsMap::new(),
            service_account: "delta-sa".to_owned(),
            resource_requirements: None,
            resync_interval: None,
        },
        emulator_endpoint: None,
    }
}

fn fresh_vacuum_config() -> DeltaTableVacuumConfiguration {
    DeltaTableVacuumConfiguration {
        time_interval: None,
        commit_interval: None,
        disable: None,
        retention_period: None,
        criteria: None,
    }
}

#[test]
fn test_plan_pass_deletion_goes_to_cleanup() {
    let mut r = resource();
    r.metadata.deletion_timestamp = Some("2024-01-01T00:00:00Z".to_owned());
    assert_eq!(PassPlan::Cleanup, r.plan_pass());
}

#[test]
fn test_plan_pass_without_finalizer_attaches_it() {
    let mut r = resource();
    r.metadata.has_finalizer = false;
    assert_eq!(PassPlan::AttachFinalizer, r.plan_pass());
}

#[test]
fn test_plan_pass_live_resource_applies() {
    assert_eq!(PassPlan::Apply, r_apply().plan_pass());
}

fn r_apply() -> DeltaTable {
    resource()
}

#[test]
fn test_cleanup_detach_finalizes_without_table_calls() {
    let mut r = resource();
    r.metadata.annotations = vec_to_map(vec![(
        ANNOTATION_RECONCILIATION_POLICY.to_owned(),
        "detach".to_owned(),
    )]);
    let o = r.cleanup();
    assert!(o.finalize);
    assert!(!o.event.warning);
    assert_eq!("DeleteRequested", o.event.reason);
    assert_eq!("Deleting", o.event.action);
    assert_eq!(
        "Delete `orders`: no action due to policy",
        o.event.note.unwrap()
    );
}

#[test]
fn test_cleanup_manage_finalizes_without_destructive_calls() {
    let o = resource().cleanup();
    assert!(o.finalize);
    assert_eq!(
        "Delete `orders`: delete not implemented",
        o.event.note.unwrap()
    );
}

#[test]
fn test_cleanup_unrecognized_policy_collapses_to_manage() {
    let mut r = resource();
    r.metadata.annotations = vec_to_map(vec![(
        ANNOTATION_RECONCILIATION_POLICY.to_owned(),
        "obliterate".to_owned(),
    )]);
    let o = r.cleanup();
    assert!(o.finalize);
    assert_eq!(
        "Delete `orders`: delete not implemented",
        o.event.note.unwrap()
    );
}

#[test]
fn test_error_policy_requeues_after_five_minutes() {
    let d = error_policy(&Error::Kubernetes {
        message: "timeout".to_owned(),
    });
    assert_eq!(Directive::Requeue { delay_secs: 300 }, d);
}

#[test]
fn test_full_pass_with_one_due_action() {
    let mut r = resource();
    r.spec.vacuum_configuration = Some(fresh_vacuum_config());
    let input = input(r);

    let (state, req) = reconcile_core(&input, None, reconcile_init());
    let req = match req {
        Some(Request::LoadTable { options }) => {
            assert_eq!(0, options.len());
            reconcile_core(&input, Some(Response::TableLoaded { version: 7 }), state)
        }
        other => panic!("expected a load request, got {:?}", other),
    };
    let (state, req) = req;
    let (state, req) = match req {
        Some(Request::CreateJob { job }) => {
            assert_eq!("orders-vacuum", job.name);
            reconcile_core(&input, Some(Response::JobCreated), state)
        }
        other => panic!("expected a job request, got {:?}", other),
    };
    let (state, req) = match req {
        Some(Request::PatchStatus { patch }) => {
            assert_eq!(Some(7), patch.version);
            assert_eq!(Some(true), patch.is_healthy);
            assert_eq!(Some(String::new()), patch.table_uri);
            assert_eq!(Some(String::new()), patch.schema);
            reconcile_core(&input, Some(Response::StatusPatched { ok: true }), state)
        }
        other => panic!("expected a status patch, got {:?}", other),
    };
    assert!(req.is_none());
    assert!(reconcile_done(&state));
}

#[test]
fn test_duplicate_job_conflict_counts_as_success() {
    let mut r = resource();
    r.spec.vacuum_configuration = Some(fresh_vacuum_config());
    let input = input(r);

    let (state, _req) = reconcile_core(&input, None, reconcile_init());
    let (state, req) = reconcile_core(&input, Some(Response::TableLoaded { version: 7 }), state);
    assert!(matches!(req, Some(Request::CreateJob { .. })));
    // The job already exists: the pass continues exactly as on creation.
    let (state, req) = reconcile_core(&input, Some(Response::JobConflict), state);
    match req {
        Some(Request::PatchStatus { patch }) => assert_eq!(Some(true), patch.is_healthy),
        other => panic!("expected a status patch, got {:?}", other),
    }
    let (state, req) = reconcile_core(&input, Some(Response::StatusPatched { ok: true }), state);
    assert!(req.is_none());
    assert!(reconcile_done(&state));
}

#[test]
fn test_dispatch_failure_aborts_remaining_actions() {
    let mut r = resource();
    r.spec.vacuum_configuration = Some(fresh_vacuum_config());
    r.spec.checkpoint_configuration = Some(DeltaTableMaintenceConfiguration {
        time_interval: None,
        commit_interval: None,
        disable: None,
        criteria: Some(MaintenanceCriteria::Commit),
    });
    let input = input(r);

    let (state, _req) = reconcile_core(&input, None, reconcile_init());
    let (state, req) = reconcile_core(&input, Some(Response::TableLoaded { version: 7 }), state);
    // Both actions are due; the first (vacuum) is dispatched first.
    match req {
        Some(Request::CreateJob { job }) => assert_eq!("orders-vacuum", job.name),
        other => panic!("expected a job request, got {:?}", other),
    }
    let (state, req) = reconcile_core(
        &input,
        Some(Response::JobFailed {
            message: "forbidden".to_owned(),
        }),
        state,
    );
    assert!(req.is_none());
    assert!(reconcile_error(&state));
    assert_eq!(
        Some(Error::Kubernetes {
            message: "forbidden".to_owned()
        }),
        state.error
    );
}

#[test]
fn test_load_failure_publishes_unhealthy_then_fails() {
    let input = input(resource());
    let (state, _req) = reconcile_core(&input, None, reconcile_init());
    let (state, req) = reconcile_core(
        &input,
        Some(Response::TableFailed {
            message: "no access".to_owned(),
        }),
        state,
    );
    match req {
        Some(Request::PatchStatus { patch }) => {
            assert_eq!(Some(false), patch.is_healthy);
            assert_eq!(None, patch.version);
        }
        other => panic!("expected a status patch, got {:?}", other),
    }
    let (state, req) = reconcile_core(&input, Some(Response::StatusPatched { ok: true }), state);
    assert!(req.is_none());
    assert!(reconcile_error(&state));
    assert_eq!(
        Some(Error::DeltaLake {
            message: "no access".to_owned()
        }),
        state.error
    );
}

#[test]
fn test_missing_table_is_created_then_reconciled() {
    let input = input(resource());
    let (state, _req) = reconcile_core(&input, None, reconcile_init());
    let (state, req) = reconcile_core(&input, Some(Response::TableMissing), state);
    match req {
        Some(Request::CreateTable { options, configuration }) => {
            assert_eq!(0, options.len());
            assert_eq!(0, configuration.len());
        }
        other => panic!("expected a create request, got {:?}", other),
    }
    // No action is due on the fresh table: the healthy status goes out.
    let (state, req) = reconcile_core(&input, Some(Response::TableCreated { version: 0 }), state);
    match req {
        Some(Request::PatchStatus { patch }) => {
            assert_eq!(Some(0), patch.version);
            assert_eq!(Some(true), patch.is_healthy);
        }
        other => panic!("expected a status patch, got {:?}", other),
    }
    let (state, req) = reconcile_core(&input, Some(Response::StatusPatched { ok: true }), state);
    assert!(req.is_none());
    assert!(reconcile_done(&state));
}

#[test]
fn test_absent_status_is_initialized_first() {
    let mut r = resource();
    r.status = None;
    let input = input(r);
    let (state, req) = reconcile_core(&input, None, reconcile_init());
    match req {
        Some(Request::ReplaceStatus { status }) => {
            assert_eq!(None, status.version);
            assert_eq!(None, status.is_healthy);
        }
        other => panic!("expected a status replace, got {:?}", other),
    }
    let (_state, req) = reconcile_core(&input, Some(Response::StatusReplaced { ok: false }), state);
    // The replace failed, which is logged, not fatal: the pass moves on to
    // loading the table.
    assert!(matches!(req, Some(Request::LoadTable { .. })));
}

#[test]
fn test_references_are_fetched_then_resolution_fails_on_required() {
    let mut r = resource();
    r.spec.storage_options_from = Some(vec![StorageOptionReference {
        kind: ReferenceKind::ConfigMap,
        name: "creds".to_owned(),
        optional: Some(false),
    }]);
    let input = input(r);
    let (state, req) = reconcile_core(&input, None, reconcile_init());
    match req {
        Some(Request::GetReference { kind, name }) => {
            assert!(matches!(kind, ReferenceKind::ConfigMap));
            assert_eq!("creds", name);
        }
        other => panic!("expected a reference fetch, got {:?}", other),
    }
    let (state, req) = reconcile_core(&input, Some(Response::Reference { data: None }), state);
    assert!(req.is_none());
    assert!(reconcile_error(&state));
    assert_eq!(
        Some(Error::MissingReference {
            object: "orders".to_owned(),
            kind: ReferenceKind::ConfigMap,
            name: "creds".to_owned(),
        }),
        state.error
    );
}
