use asset_checkout::manifest::Manifest;
use asset_checkout::manifest::ManifestError;
use asset_checkout::manifest::parse_manifest;

fn entries(m: &Manifest) -> Vec<(String, Option<String>)> {
    m.entries.iter().map(|e| (e.path.clone(), e.hash.clone())).collect()
}

#[test]
fn parses_single_entry_manifest() {
    let m = parse_manifest(r#"{"objects": {"a/b.txt": {"hash": "ab12cd"}}}"#).unwrap();
    assert_eq!(
        entries(&m),
        vec![("a/b.txt".to_string(), Some("ab12cd".to_string()))]
    );
}

#[test]
fn parses_entries_in_document_order() {
    let m = parse_manifest(
        r#"{"objects": {"x.bin": {"hash": "0011"}, "y.bin": {"hash": "2233"}, "z.bin": {"hash": "4455"}}}"#,
    )
    .unwrap();
    assert_eq!(
        entries(&m),
        vec![
            ("x.bin".to_string(), Some("0011".to_string())),
            ("y.bin".to_string(), Some("2233".to_string())),
            ("z.bin".to_string(), Some("4455".to_string())),
        ]
    );
}

#[test]
fn invalid_json_is_malformed_manifest() {
    assert_eq!(
        parse_manifest("{not json").unwrap_err(),
        ManifestError::MalformedManifest
    );
}

#[test]
fn empty_text_is_malformed_manifest() {
    assert_eq!(
        parse_manifest("").unwrap_err(),
        ManifestError::MalformedManifest
    );
}

#[test]
fn top_level_array_is_invalid_shape() {
    assert_eq!(
        parse_manifest("[1, 2]").unwrap_err(),
        ManifestError::InvalidManifestShape
    );
}

#[test]
fn top_level_string_is_invalid_shape() {
    assert_eq!(
        parse_manifest(r#""hello""#).unwrap_err(),
        ManifestError::InvalidManifestShape
    );
}

#[test]
fn missing_objects_field_is_reported() {
    assert_eq!(
        parse_manifest(r#"{"other": {}}"#).unwrap_err(),
        ManifestError::MissingObjectsField
    );
}

#[test]
fn non_object_objects_field_is_reported() {
    assert_eq!(
        parse_manifest(r#"{"objects": 3}"#).unwrap_err(),
        ManifestError::ObjectsFieldNotMapping
    );
}

#[test]
fn entry_without_hash_field_has_no_hash() {
    let m = parse_manifest(r#"{"objects": {"a": {"size": 4}}}"#).unwrap();
    assert_eq!(entries(&m), vec![("a".to_string(), None)]);
}

#[test]
fn non_object_entry_has_no_hash() {
    let m = parse_manifest(r#"{"objects": {"a": 7}}"#).unwrap();
    assert_eq!(entries(&m), vec![("a".to_string(), None)]);
}

#[test]
fn non_string_hash_has_no_hash() {
    let m = parse_manifest(r#"{"objects": {"a": {"hash": 7}}}"#).unwrap();
    assert_eq!(entries(&m), vec![("a".to_string(), None)]);
}

#[test]
fn empty_objects_mapping_gives_empty_manifest() {
    let m = parse_manifest(r#"{"objects": {}}"#).unwrap();
    assert_eq!(entries(&m), vec![]);
}

#[test]
fn duplicate_path_keeps_the_last_entry() {
    let m = parse_manifest(r#"{"objects": {"a": {"hash": "1111"}, "a": {"hash": "2222"}}}"#)
        .unwrap();
    assert_eq!(entries(&m), vec![("a".to_string(), Some("2222".to_string()))]);
}

#[test]
fn reparsing_gives_the_same_entries() {
    let text = r#"{"objects": {"a/b.txt": {"hash": "ab12cd"}, "c": {}}}"#;
    let m1 = parse_manifest(text).unwrap();
    let m2 = parse_manifest(text).unwrap();
    assert_eq!(entries(&m1), entries(&m2));
}
