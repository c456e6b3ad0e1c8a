use bytes::Bytes;
use ipcprims::codec::Frame;
use ipcprims::error::SchemaError;
use ipcprims::schema::{
    check_schema_file, classify_schema_entry, parse_channel_pattern, resolve_channel_from_file_name,
    validation_outcome, RegistryConfig, SchemaEntry, SchemaRegistry,
};

const OBJECT_SCHEMA: &str = r#"{
    "type": "object",
    "properties": {
        "id": { "type": "integer" },
        "name": { "type": "string" }
    },
    "required": ["id", "name"]
}"#;

#[test]
fn register_and_validate() {
    let mut registry = SchemaRegistry::new();
    registry.register(1, OBJECT_SCHEMA).unwrap();

    assert!(registry.validate(1, br#"{"id":1,"name":"ok"}"#).is_ok());
    assert!(matches!(
        registry.validate(1, br#"{"id":"bad","name":"ok"}"#),
        Err(SchemaError::ValidationFailed { .. })
    ));
}

#[test]
fn multiple_channels_independent_validation() {
    let mut registry = SchemaRegistry::new();
    registry
        .register(1, r#"{"type":"object","properties":{"a":{"type":"integer"}},"required":["a"]}"#)
        .unwrap();
    registry
        .register(2, r#"{"type":"object","properties":{"b":{"type":"string"}},"required":["b"]}"#)
        .unwrap();
    registry.register(3, r#"{"type":"array","items":{"type":"boolean"}}"#).unwrap();

    assert!(registry.validate(1, br#"{"a":7}"#).is_ok());
    assert!(registry.validate(2, br#"{"b":"v"}"#).is_ok());
    assert!(registry.validate(3, br#"[true,false]"#).is_ok());

    assert!(registry.validate(1, br#"{"a":"x"}"#).is_err());
    assert!(registry.validate(2, br#"{"b":10}"#).is_err());
    assert!(registry.validate(3, br#"[true,1]"#).is_err());
}

#[test]
fn missing_schema_permissive_passes() {
    let registry = SchemaRegistry::new();
    assert!(registry.validate(99, br#"{"any":"thing"}"#).is_ok());
}

#[test]
fn missing_schema_strict_fails() {
    let registry = SchemaRegistry::with_config(RegistryConfig {
        strict_mode: false,
        fail_on_missing_schema: true,
        ..RegistryConfig::default()
    });

    assert!(matches!(registry.validate(99, br#"{}"#), Err(SchemaError::NoSchema(99))));
}

#[test]
fn strict_mode_rejects_additional_properties() {
    let mut permissive = SchemaRegistry::new();
    permissive.register(1, OBJECT_SCHEMA).unwrap();

    let mut strict = SchemaRegistry::with_config(RegistryConfig {
        strict_mode: true,
        fail_on_missing_schema: false,
        ..RegistryConfig::default()
    });
    strict.register(1, OBJECT_SCHEMA).unwrap();

    let payload = br#"{"id":1,"name":"ok","extra":true}"#;
    assert!(permissive.validate(1, payload).is_ok());
    assert!(matches!(strict.validate(1, payload), Err(SchemaError::ValidationFailed { .. })));
}

#[test]
fn invalid_json_payload_fails() {
    let mut registry = SchemaRegistry::new();
    registry.register(1, OBJECT_SCHEMA).unwrap();

    assert!(matches!(registry.validate(1, b"not-json"), Err(SchemaError::InvalidJson(_))));
}

#[test]
fn invalid_schema_fails_compile() {
    let mut registry = SchemaRegistry::new();
    let invalid = r#"{"type":"definitely-not-a-type"}"#;

    assert!(matches!(registry.register(1, invalid), Err(SchemaError::CompileFailed(_))));
}

#[test]
fn from_embedded_loads_schemas() {
    let registry = SchemaRegistry::from_embedded(&[
        (1, OBJECT_SCHEMA),
        (2, r#"{"type":"object","properties":{"x":{"type":"boolean"}},"required":["x"]}"#),
    ])
    .unwrap();

    assert!(registry.has_schema(1));
    assert!(registry.has_schema(2));
    assert_eq!(registry.channels(), vec![1, 2]);
}

#[test]
fn strict_mode_applies_object_keywords_without_type() {
    let schema = r#"{
        "properties": {
            "id": { "type": "integer" }
        },
        "required": ["id"]
    }"#;

    let mut strict = SchemaRegistry::with_config(RegistryConfig {
        strict_mode: true,
        ..RegistryConfig::default()
    });
    strict.register(1, schema).unwrap();

    assert!(strict.validate(1, br#"{"id":1}"#).is_ok());
    assert!(matches!(
        strict.validate(1, br#"{"id":1,"extra":true}"#),
        Err(SchemaError::ValidationFailed { .. })
    ));
}

#[test]
fn strict_mode_applies_nested_objects() {
    let schema = r#"{
        "type": "object",
        "properties": {
            "nested": {
                "type": "object",
                "properties": {
                    "v": { "type": "integer" }
                },
                "required": ["v"]
            }
        },
        "required": ["nested"]
    }"#;

    let mut strict = SchemaRegistry::with_config(RegistryConfig {
        strict_mode: true,
        fail_on_missing_schema: false,
        ..RegistryConfig::default()
    });
    strict.register(1, schema).unwrap();

    assert!(strict.validate(1, br#"{"nested":{"v":1}}"#).is_ok());
    assert!(matches!(
        strict.validate(1, br#"{"nested":{"v":1,"extra":true}}"#),
        Err(SchemaError::ValidationFailed { .. })
    ));
}

#[test]
fn parser_recognizes_channel_pattern() {
    assert_eq!(parse_channel_pattern("channel_1.schema.json"), Some(1));
    assert_eq!(parse_channel_pattern("channel_65535.schema.json"), Some(65535));
    assert_eq!(parse_channel_pattern("channel_70000.schema.json"), None);
    assert_eq!(parse_channel_pattern("channel_x.schema.json"), None);
}

#[test]
fn file_names_resolve_without_case() {
    assert_eq!(resolve_channel_from_file_name("Command.Schema.JSON"), Some(1));
    assert_eq!(resolve_channel_from_file_name("telemetry.schema.json"), Some(3));
    assert_eq!(resolve_channel_from_file_name("CHANNEL_300.schema.json"), Some(300));
    assert_eq!(resolve_channel_from_file_name("foo.schema.json"), None);
    assert_eq!(resolve_channel_from_file_name("channel_.schema.json"), None);
}

#[test]
fn directory_entries_are_classified() {
    assert!(matches!(
        classify_schema_entry("command.schema.json", false, true),
        Ok(SchemaEntry::Load(1))
    ));
    assert!(matches!(classify_schema_entry("ignored.json", false, true), Ok(SchemaEntry::Skip)));
    assert!(matches!(
        classify_schema_entry("foo.schema.json", false, true),
        Err(SchemaError::LoadFailed(_))
    ));
    assert!(matches!(
        classify_schema_entry("command.schema.json", true, false),
        Err(SchemaError::LoadFailed(_))
    ));
    assert!(matches!(classify_schema_entry("link.txt", true, false), Ok(SchemaEntry::Skip)));
    assert!(matches!(classify_schema_entry("dir.schema.json", false, false), Ok(SchemaEntry::Skip)));
}

#[test]
fn directory_limits_are_enforced() {
    let config = RegistryConfig {
        max_schemas_from_directory: 1,
        max_schema_file_size: 16,
        ..RegistryConfig::default()
    };
    assert!(check_schema_file(&config, 1, 16).is_ok());
    assert!(check_schema_file(&config, 2, 1).is_err());
    assert!(check_schema_file(&config, 1, 17).is_err());
}

#[test]
fn validation_messages_keep_the_first_four() {
    let none: Vec<String> = vec![];
    assert!(validation_outcome(5, none).is_ok());
    let ms: Vec<String> = ["a", "b", "c", "d", "e"].iter().map(|s| s.to_string()).collect();
    match validation_outcome(5, ms) {
        Err(SchemaError::ValidationFailed { channel, message }) => {
            assert_eq!(channel, 5);
            assert_eq!(message, "a; b; c; d");
        }
        other => panic!("unexpected: {other:?}"),
    }
}

#[test]
fn validate_frame_uses_the_frame_channel() {
    let mut registry = SchemaRegistry::new();
    registry.register(1, OBJECT_SCHEMA).unwrap();
    let good = Frame::new(1, Bytes::from_static(br#"{"id":10,"name":"cmd"}"#));
    let bad = Frame::new(1, Bytes::from_static(br#"{"id":"x"}"#));
    assert!(registry.validate_frame(&good).is_ok());
    assert!(registry.validate_frame(&bad).is_err());
}
