use tachyon::ids::synthetic_output_id;
use tachyon::ids::SYNTHETIC_OUTPUT_ID_NAMESPACE;

#[test]
fn synthetic_output_ids_are_stable_name_based_uuids() {
    let source = "fc_123".to_string();
    let id = synthetic_output_id("fco", Some(&source)).expect("an id for a non-empty source");
    let namespace = uuid::Uuid::from_u128(SYNTHETIC_OUTPUT_ID_NAMESPACE);
    let expected = uuid::Uuid::new_v5(&namespace, b"fco:fc_123");
    assert_eq!(id, format!("fco_{expected}"));
    assert_eq!(synthetic_output_id("fco", Some(&source)), Some(id.clone()));
    let other = "fc_124".to_string();
    assert_ne!(synthetic_output_id("fco", Some(&other)), Some(id));
}

#[test]
fn missing_or_empty_sources_have_no_synthetic_id() {
    assert_eq!(synthetic_output_id("fco", None), None);
    assert_eq!(synthetic_output_id("fco", Some(&String::new())), None);
}
