use mcp_utc_time_server::auth::api_key::EnvEntry;
use mcp_utc_time_server::auth::{ApiKey, ApiKeyValidator};

#[test]
fn test_from_keys() {
    let validator =
        ApiKeyValidator::from_keys(vec!["test-key-1".to_string(), "test-key-2".to_string()]);

    assert!(validator.validate("test-key-1"));
    assert!(validator.validate("test-key-2"));
    assert!(!validator.validate("invalid-key"));
    assert_eq!(validator.key_count(), 2);
}

#[test]
fn test_get_metadata() {
    let validator = ApiKeyValidator::from_keys(vec!["test-key".to_string()]);

    let metadata = validator.get_key_metadata("test-key");
    assert!(metadata.is_some());
    assert_eq!(metadata.unwrap().key, "test-key");
}

#[test]
fn static_keys_are_named_by_their_place() {
    let keys: Vec<String> = (0..12).map(|i| format!("k{}", i)).collect();
    let validator = ApiKeyValidator::from_keys(keys);
    assert_eq!(
        validator.get_key_metadata("k0").unwrap().name.as_deref(),
        Some("Static key 1")
    );
    assert_eq!(
        validator.get_key_metadata("k9").unwrap().name.as_deref(),
        Some("Static key 10")
    );
    assert_eq!(
        validator.get_key_metadata("k11").unwrap().name.as_deref(),
        Some("Static key 12")
    );
    assert_eq!(validator.get_key_metadata("k11").unwrap().rate_limit, None);
    assert!(validator.get_key_metadata("k12").is_none());
}

#[test]
fn a_key_given_twice_counts_once() {
    let validator = ApiKeyValidator::from_keys(vec![
        "a".to_string(),
        "b".to_string(),
        "a".to_string(),
    ]);
    assert_eq!(validator.key_count(), 2);
    assert!(validator.has_keys());
    assert_eq!(
        validator.get_key_metadata("a").unwrap().name.as_deref(),
        Some("Static key 1")
    );
}

#[test]
fn no_keys_admit_nobody() {
    let validator = ApiKeyValidator::from_keys(Vec::new());
    assert_eq!(validator.key_count(), 0);
    assert!(!validator.has_keys());
    assert!(!validator.validate(""));
    assert!(validator.get_key_metadata("").is_none());
}

fn entry(name: &str, value: &str, parsed: Option<ApiKey>) -> EnvEntry {
    EnvEntry {
        name: name.to_string(),
        value: value.to_string(),
        parsed,
    }
}

#[test]
fn keys_of_an_environment() {
    let entries = vec![
        entry("PATH", "/usr/bin", None),
        entry("API_KEY_ALPHA", "plain-key", None),
        entry(
            "API_KEY_BETA",
            "{\"key\":\"json-key\",\"name\":\"Beta\",\"rate_limit\":5}",
            Some(ApiKey {
                key: "json-key".to_string(),
                name: Some("Beta".to_string()),
                rate_limit: Some(5),
            }),
        ),
        entry("API_KEY_GAMMA", "{broken", None),
        entry("API_KEYS", "not-seen-here", None),
    ];
    let legacy = Some(" old-1 ,, old-2,plain-key".to_string());
    let validator = ApiKeyValidator::from_env(&entries, &legacy);

    assert!(validator.validate("plain-key"));
    assert!(validator.validate("json-key"));
    assert!(validator.validate("{broken"));
    assert!(validator.validate("old-1"));
    assert!(validator.validate("old-2"));
    assert!(!validator.validate(""));
    assert!(!validator.validate("/usr/bin"));
    assert!(!validator.validate("not-seen-here"));
    assert_eq!(validator.key_count(), 5);

    let alpha = validator.get_key_metadata("plain-key").unwrap();
    assert_eq!(alpha.name.as_deref(), Some("Key ALPHA"));
    let beta = validator.get_key_metadata("json-key").unwrap();
    assert_eq!(beta.name.as_deref(), Some("Beta"));
    assert_eq!(beta.rate_limit, Some(5));
    let gamma = validator.get_key_metadata("{broken").unwrap();
    assert_eq!(gamma.name.as_deref(), Some("Key GAMMA"));
    let old = validator.get_key_metadata("old-2").unwrap();
    assert_eq!(old.name.as_deref(), Some("Legacy key"));
}

#[test]
fn a_parsed_key_counts_only_for_a_value_in_braces() {
    let entries = vec![entry(
        "API_KEY_X",
        "raw",
        Some(ApiKey {
            key: "other".to_string(),
            name: None,
            rate_limit: None,
        }),
    )];
    let validator = ApiKeyValidator::from_env(&entries, &None);
    assert!(validator.validate("raw"));
    assert!(!validator.validate("other"));
}

#[test]
fn reload_replaces_the_keys() {
    let mut validator = ApiKeyValidator::from_keys(vec!["first".to_string()]);
    validator.reload(&vec![entry("API_KEY_1", "second", None)], &None);
    assert!(!validator.validate("first"));
    assert!(validator.validate("second"));
    assert_eq!(validator.key_count(), 1);
}
