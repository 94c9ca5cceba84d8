use delta_operator::error::Error;
use delta_operator::options::OptionsMap;
use delta_operator::resolver::FetchedObject;
use delta_operator::resolver::ObjectData;
use delta_operator::types::DeltaTable;
use delta_operator::types::DeltaTableSpec;
use delta_operator::types::ObjectMetadata;
use delta_operator::types::ReferenceKind;
use delta_operator::types::StorageOptionReference;

fn resource(
    inline: Option<Vec<(String, String)>>,
    refs: Option<Vec<StorageOptionReference>>,
) -> DeltaTable {
    DeltaTable {
        metadata: ObjectMetadata {
            name: "table-one".to_owned(),
            namespace: Some("default".to_owned()),
            annotations: OptionsMap::new(),
            deletion_timestamp: None,
            has_finalizer: true,
        },
        spec: DeltaTableSpec {
            name: "table_one".to_owned(),
            table_uri: "memory://table".to_owned(),
            allow_http: None,
            schema: "{}".to_owned(),
            partition_columns: vec![],
            checkpoint_configuration: None,
            optimize_configuration: None,
            vacuum_configuration: None,
            storage_options: inline,
            storage_options_from: refs,
            configuration: None,
        },
        status: None,
    }
}

fn config_map(name: &str, entries: Vec<(&str, &str)>) -> FetchedObject {
    FetchedObject {
        kind: ReferenceKind::ConfigMap,
        name: name.to_owned(),
        data: Some(ObjectData::ConfigMap {
            entries: entries
                .into_iter()
                .map(|(k, v)| (k.to_owned(), v.to_owned()))
                .collect(),
        }),
    }
}

fn secret(name: &str, entries: Vec<(&str, &[u8])>) -> FetchedObject {
    FetchedObject {
        kind: ReferenceKind::Secret,
        name: name.to_owned(),
        data: Some(ObjectData::Secret {
            entries: entries
                .into_iter()
                .map(|(k, v)| (k.to_owned(), v.to_vec()))
                .collect(),
        }),
    }
}

fn reference(kind: ReferenceKind, name: &str, optional: Option<bool>) -> StorageOptionReference {
    StorageOptionReference {
        kind,
        name: name.to_owned(),
        optional,
    }
}

#[test]
fn test_resolution_last_write_wins() {
    // inline a=1, then a ConfigMap sets a=2, then a Secret (decoded from
    // bytes) sets a=3: the resolved value is 3.
    let r = resource(
        Some(vec![("a".to_owned(), "1".to_owned())]),
        Some(vec![
            reference(ReferenceKind::ConfigMap, "cm", None),
            reference(ReferenceKind::Secret, "sec", None),
        ]),
    );
    let cache = vec![config_map("cm", vec![("a", "2")]), secret("sec", vec![("a", b"3")])];
    let m = r.accumulate_storage_options(&cache).unwrap();
    assert_eq!(1, m.len());
    assert_eq!("3", m.get(&"a".to_owned()).unwrap());
}

#[test]
fn test_missing_required_reference_fails() {
    let r = resource(
        None,
        Some(vec![reference(ReferenceKind::ConfigMap, "absent", Some(false))]),
    );
    let cache = vec![FetchedObject {
        kind: ReferenceKind::ConfigMap,
        name: "absent".to_owned(),
        data: None,
    }];
    let e = r.accumulate_storage_options(&cache).unwrap_err();
    match e {
        Error::MissingReference { object, kind, name } => {
            assert_eq!("table-one", object);
            assert!(matches!(kind, ReferenceKind::ConfigMap));
            assert_eq!("absent", name);
        }
        other => panic!("expected MissingReference, got {:?}", other),
    }
}

#[test]
fn test_missing_optional_reference_contributes_nothing() {
    let r = resource(
        Some(vec![("a".to_owned(), "1".to_owned())]),
        Some(vec![reference(ReferenceKind::Secret, "absent", Some(true))]),
    );
    let cache = vec![FetchedObject {
        kind: ReferenceKind::Secret,
        name: "absent".to_owned(),
        data: None,
    }];
    let m = r.accumulate_storage_options(&cache).unwrap();
    assert_eq!(1, m.len());
    assert_eq!("1", m.get(&"a".to_owned()).unwrap());
}

#[test]
fn test_secret_bytes_are_decoded_lossily() {
    let r = resource(
        None,
        Some(vec![reference(ReferenceKind::Secret, "sec", None)]),
    );
    let cache = vec![secret("sec", vec![("key", &[0xff, b'0'])])];
    let m = r.accumulate_storage_options(&cache).unwrap();
    assert_eq!("\u{fffd}0", m.get(&"key".to_owned()).unwrap());
}

#[test]
fn test_fetch_plan_deduplicates_names() {
    // The same object referenced twice is fetched once; the same name under
    // another kind is a different object.
    let r = resource(
        None,
        Some(vec![
            reference(ReferenceKind::ConfigMap, "x", None),
            reference(ReferenceKind::ConfigMap, "x", Some(true)),
            reference(ReferenceKind::Secret, "x", None),
        ]),
    );
    let plan = r.fetch_plan();
    assert_eq!(2, plan.len());
    assert!(matches!(plan[0].0, ReferenceKind::ConfigMap));
    assert_eq!("x", plan[0].1);
    assert!(matches!(plan[1].0, ReferenceKind::Secret));
    assert_eq!("x", plan[1].1);
}

#[test]
fn test_duplicate_reference_uses_cached_fetch() {
    // Two references to one ConfigMap resolve from the single cached fetch.
    let r = resource(
        None,
        Some(vec![
            reference(ReferenceKind::ConfigMap, "cm", None),
            reference(ReferenceKind::ConfigMap, "cm", None),
        ]),
    );
    let cache = vec![config_map("cm", vec![("a", "2")])];
    let m = r.accumulate_storage_options(&cache).unwrap();
    assert_eq!(1, m.len());
    assert_eq!("2", m.get(&"a".to_owned()).unwrap());
}

#[test]
fn test_no_options_resolve_empty() {
    let r = resource(None, None);
    let m = r.accumulate_storage_options(&Vec::new()).unwrap();
    assert_eq!(0, m.len());
}
