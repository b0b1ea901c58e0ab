use busbar_hashicorp_vault::error::VaultError;
use busbar_hashicorp_vault::reference::{parse_reference, resolve_reference};
use serde_json::Value;
type Settings = serde_json::Map<String, Value>;

fn settings(pairs: &[(&str, &str)]) -> Settings {
    let mut m = Settings::new();
    for (k, v) in pairs {
        m.insert(k.to_string(), Value::String(v.to_string()));
    }
    m
}

#[test]
fn hash_suffix_addressing_matches_the_published_doc_convention() {
    let s = settings(&[("path", "kv/data/openai#api_key")]);
    let (path, field) = parse_reference(&s).unwrap();
    assert_eq!(path, "kv/data/openai");
    assert_eq!(field, "api_key");
}

#[test]
fn explicit_field_key_is_accepted() {
    let s = settings(&[("path", "kv/data/openai"), ("field", "api_key")]);
    let (path, field) = parse_reference(&s).unwrap();
    assert_eq!(path, "kv/data/openai");
    assert_eq!(field, "api_key");
}

#[test]
fn explicit_field_wins_over_a_hash_in_path() {
    // Deliberately adversarial: a `#` that is not the intended split point.
    let s = settings(&[("path", "kv/data/weird#name"), ("field", "real_field")]);
    let (path, field) = parse_reference(&s).unwrap();
    assert_eq!(path, "kv/data/weird#name");
    assert_eq!(field, "real_field");
}

#[test]
fn missing_path_is_rejected() {
    let s = settings(&[("field", "api_key")]);
    let err = parse_reference(&s).unwrap_err();
    assert!(err.message().contains("path"), "{}", err.message());
}

#[test]
fn path_with_no_field_and_no_hash_is_rejected() {
    let s = settings(&[("path", "kv/data/openai")]);
    let err = parse_reference(&s).unwrap_err();
    assert!(err.message().contains("field to extract"), "{}", err.message());
}

#[test]
fn empty_field_after_hash_is_rejected() {
    let s = settings(&[("path", "kv/data/openai#")]);
    let err = parse_reference(&s).unwrap_err();
    assert!(err.message().contains("field to extract"), "{}", err.message());
}

#[test]
fn empty_explicit_field_is_rejected() {
    let s = settings(&[("path", "kv/data/openai"), ("field", "")]);
    let err = parse_reference(&s).unwrap_err();
    assert!(err.message().contains("must not be empty"), "{}", err.message());
}

#[test]
fn suffix_split_is_at_the_last_hash() {
    let s = settings(&[("path", "kv/data/a#b#c")]);
    let (path, field) = parse_reference(&s).unwrap();
    assert_eq!(path, "kv/data/a#b");
    assert_eq!(field, "c");
}

#[test]
fn non_string_path_counts_as_missing() {
    let mut s = Settings::new();
    s.insert("path".to_string(), Value::Bool(true));
    s.insert("field".to_string(), Value::String("x".to_string()));
    assert!(matches!(parse_reference(&s), Err(VaultError::MissingPath)));
}

#[test]
fn non_string_field_counts_as_absent() {
    let mut s = settings(&[("path", "kv/data/openai#api_key")]);
    s.insert("field".to_string(), Value::Null);
    let (path, field) = parse_reference(&s).unwrap();
    assert_eq!(path, "kv/data/openai");
    assert_eq!(field, "api_key");
}

#[test]
fn empty_settings_are_rejected() {
    assert!(matches!(parse_reference(&Settings::new()), Err(VaultError::MissingPath)));
}

#[test]
fn no_field_error_names_the_path() {
    match resolve_reference(Some("kv/data/openai"), None) {
        Err(VaultError::NoField { path }) => assert_eq!(path, "kv/data/openai"),
        other => panic!("unexpected: {:?}", other),
    }
}

#[test]
fn both_addressing_forms_agree() {
    let a = resolve_reference(Some("secret/data/app#org_id"), None).unwrap();
    let b = resolve_reference(Some("secret/data/app"), Some("org_id")).unwrap();
    assert_eq!(a, b);
    assert_eq!(a, ("secret/data/app".to_string(), "org_id".to_string()));
}

#[test]
fn resolved_suffix_rejoins_to_the_path() {
    let (p, f) = resolve_reference(Some("kv/x#y#zz"), None).unwrap();
    assert!(!f.is_empty());
    assert!(!f.contains('#'));
    assert_eq!(format!("{}#{}", p, f), "kv/x#y#zz");
}

#[test]
fn path_that_is_only_a_suffix_keeps_an_empty_path() {
    let (p, f) = resolve_reference(Some("#api_key"), None).unwrap();
    assert_eq!(p, "");
    assert_eq!(f, "api_key");
}

#[test]
fn multibyte_text_splits_on_characters() {
    let (p, f) = resolve_reference(Some("kv/data/été#clé"), None).unwrap();
    assert_eq!(p, "kv/data/été");
    assert_eq!(f, "clé");
}
