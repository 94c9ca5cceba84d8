use delta_operator::dispatch::make_resource_requirements;
use delta_operator::dispatch::EnvEntry;
use delta_operator::options::vec_to_map;
use delta_operator::options::OptionsMap;
use delta_operator::types::Action;
use delta_operator::types::DeltaTable;
use delta_operator::types::DeltaTableConfiguration;
use delta_operator::types::DeltaTableSpec;
use delta_operator::types::JobSettings;
use delta_operator::types::ObjectMetadata;

fn resource(name: &str) -> DeltaTable {
    DeltaTable {
        metadata: ObjectMetadata {
            name: name.to_owned(),
            namespace: Some("tables".to_owned()),
            annotations: OptionsMap::new(),
            deletion_timestamp: None,
            has_finalizer: true,
        },
        spec: DeltaTableSpec {
            name: name.to_owned(),
            table_uri: "memory://table".to_owned(),
            allow_http: None,
            schema: "{}".to_owned(),
            partition_columns: vec![],
            checkpoint_configuration: None,
            optimize_configuration: None,
            vacuum_configuration: None,
            storage_options: None,
            storage_options_from: None,
            configuration: None,
        },
        status: None,
    }
}

fn settings() -> JobSettings {
    JobSettings {
        namespace: "delta-operator-system".to_owned(),
        image: "worker:v1".to_owned(),
        labels: vec_to_map(vec![("app".to_owned(), "delta".to_owned())]),
        annotations: OptionsMap::new(),
        service_account: "delta-sa".to_owned(),
        resource_requirements: None,
        resync_interval: Some(3600),
    }
}

fn options(entries: Vec<(&str, &str)>) -> OptionsMap {
    vec_to_map(
        entries
            .into_iter()
            .map(|(k, v)| (k.to_owned(), v.to_owned()))
            .collect(),
    )
}

#[test]
fn test_job_name_is_lowered() {
    let r = resource("MyTable");
    let job = r.create_job(
        Action::Vacuum,
        &"tables".to_owned(),
        &settings(),
        &options(vec![]),
        &None,
    );
    assert_eq!("mytable-vacuum", job.name);
}

#[test]
fn test_job_carries_worker_arguments() {
    let r = resource("orders");
    let job = r.create_job(
        Action::Checkpoint,
        &"tables".to_owned(),
        &settings(),
        &options(vec![]),
        &None,
    );
    assert_eq!(
        vec![
            "--table",
            "orders",
            "--namespace",
            "tables",
            "--action",
            "checkpoint",
            "--worker-name",
            "delta-maintenance-worker",
        ],
        job.args
    );
    assert_eq!("delta-operator-system", job.namespace);
    assert_eq!("worker:v1", job.image);
    assert_eq!("delta-sa", job.service_account);
    assert_eq!("maintenance", job.container_name);
    assert_eq!("Never", job.restart_policy);
    assert_eq!(60, job.ttl_seconds_after_finished);
}

#[test]
fn test_job_env_exposes_pod_name() {
    let r = resource("orders");
    let job = r.create_job(
        Action::Optimize,
        &"tables".to_owned(),
        &settings(),
        &options(vec![]),
        &None,
    );
    assert_eq!(1, job.env.len());
    match &job.env[0] {
        EnvEntry::FieldRef { name, field_path } => {
            assert_eq!("CONTROLLER_POD_NAME", name);
            assert_eq!("metadata.name", field_path);
        }
        other => panic!("expected a field reference, got {:?}", other),
    }
}

#[test]
fn test_emulator_endpoint_injected_when_enabled() {
    // The flag key is matched case-insensitively and the endpoint must be
    // known to the operator's own environment.
    let r = resource("orders");
    let job = r.create_job(
        Action::Vacuum,
        &"tables".to_owned(),
        &settings(),
        &options(vec![("AZURE_STORAGE_USE_EMULATOR", "true")]),
        &Some("http://azurite:10000".to_owned()),
    );
    assert_eq!(2, job.env.len());
    match &job.env[1] {
        EnvEntry::Value { name, value } => {
            assert_eq!("AZURITE_BLOB_STORAGE_URL", name);
            assert_eq!("http://azurite:10000", value);
        }
        other => panic!("expected a value entry, got {:?}", other),
    }
}

#[test]
fn test_emulator_endpoint_not_injected_when_disabled() {
    let r = resource("orders");
    for value in ["false", "0", "False", "FALSE"] {
        let job = r.create_job(
            Action::Vacuum,
            &"tables".to_owned(),
            &settings(),
            &options(vec![("azure_storage_use_emulator", value)]),
            &Some("http://azurite:10000".to_owned()),
        );
        assert_eq!(1, job.env.len());
    }
}

#[test]
fn test_emulator_endpoint_needs_environment_value() {
    let r = resource("orders");
    let job = r.create_job(
        Action::Vacuum,
        &"tables".to_owned(),
        &settings(),
        &options(vec![("azure_storage_use_emulator", "1")]),
        &None,
    );
    assert_eq!(1, job.env.len());
}

#[test]
fn test_make_resource_requirements_empty() {
    assert!(make_resource_requirements(None, None).is_none());
}

#[test]
fn test_make_resource_requirements_partial() {
    let limits = make_resource_requirements(Some("500m".to_owned()), None).unwrap();
    assert_eq!(Some("500m".to_owned()), limits.cpu);
    assert_eq!(None, limits.memory);
    let limits = make_resource_requirements(None, Some("1Gi".to_owned())).unwrap();
    assert_eq!(None, limits.cpu);
    assert_eq!(Some("1Gi".to_owned()), limits.memory);
}

#[test]
fn test_extract_config_writes_change_feed_key() {
    let mut r = resource("orders");
    r.spec.configuration = Some(DeltaTableConfiguration {
        enable_change_feed: Some(true),
        additional_settings: Some(vec![(
            "delta.appendOnly".to_owned(),
            "true".to_owned(),
        )]),
    });
    let m = r.extract_config();
    assert_eq!(2, m.len());
    assert_eq!("true", m.get(&"delta.enableChangeDataFeed".to_owned()).unwrap());
    assert_eq!("true", m.get(&"delta.appendOnly".to_owned()).unwrap());
}

#[test]
fn test_extract_config_absent_is_empty() {
    let r = resource("orders");
    assert_eq!(0, r.extract_config().len());
}
