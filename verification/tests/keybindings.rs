use keybindings_config::{Config, ConfigError, KeybindingsConfig};

fn sample_pairs() -> Vec<(String, String)> {
    vec![
        (String::from("key1"), String::from("value1")),
        (String::from("key2"), String::from("value2")),
        (String::from("key3"), String::from("value3")),
        (String::from("key4"), String::from("value4")),
        (String::from("key5"), String::from("value5")),
    ]
}

#[test]
fn file_not_created() {
    let wrapped_config = KeybindingsConfig::new(String::from("keybindings_config.yaml"), None);
    assert!(wrapped_config.is_ok());
    let mut config = wrapped_config.unwrap();
    config.set(sample_pairs());
    assert_eq!(config.get("key1"), Some(String::from("value1")));
    assert_eq!(config.get("key2"), Some(String::from("value2")));
    assert_eq!(config.get("key3"), Some(String::from("value3")));
    assert_eq!(config.get("key4"), Some(String::from("value4")));
    assert_eq!(config.get("key5"), Some(String::from("value5")));
    assert_eq!(config.get_key_from_value("value5"), Some(String::from("key5")));
}

#[test]
fn with_file_not_created_and_valid_bindings() {
    let wrapped_config =
        KeybindingsConfig::new(String::from("with_file_not_created_and_valid_bindings.yaml"), None);
    assert!(wrapped_config.is_ok());
    let config = wrapped_config.unwrap();
    assert_eq!(
        config.get_key_from_value("Alt + RETURN"),
        Some(String::from("execute-secondary-action"))
    );
}

#[test]
fn save_then_new_round_trip() {
    let mut setup_config =
        KeybindingsConfig::new(String::from("keybindings_config.yaml"), None).unwrap();
    setup_config.set(sample_pairs());
    let saved = setup_config.save();
    assert!(saved.is_ok());
    let text = saved.unwrap();

    let wrapped_config =
        KeybindingsConfig::new(String::from("keybindings_config.yaml"), Some(text));
    assert!(wrapped_config.is_ok());
    let config = wrapped_config.unwrap();
    assert_eq!(config.get("key1"), Some(String::from("value1")));
    assert_eq!(config.get("key2"), Some(String::from("value2")));
    assert_eq!(config.get("key3"), Some(String::from("value3")));
    assert_eq!(config.get("key4"), Some(String::from("value4")));
    assert_eq!(config.get("key5"), Some(String::from("value5")));
    assert_eq!(config.get("key6"), None);
    assert_eq!(config.get_key_from_value("value5"), Some(String::from("key5")));
}

#[test]
fn round_trip_keeps_awkward_strings() {
    let mut setup_config = KeybindingsConfig::new(String::from("awkward.yaml"), None).unwrap();
    setup_config.set(vec![
        (String::from("key with spaces"), String::from("a: b")),
        (String::from("true"), String::from("123")),
        (String::from("quote\"inside"), String::from("")),
    ]);
    let text = setup_config.save().unwrap();
    let config = KeybindingsConfig::new(String::from("awkward.yaml"), Some(text)).unwrap();
    assert_eq!(config.get("key with spaces"), Some(String::from("a: b")));
    assert_eq!(config.get("true"), Some(String::from("123")));
    assert_eq!(config.get("quote\"inside"), Some(String::from("")));
    assert_eq!(config.get("a: b"), None);
}

#[test]
fn missing_file_yields_default_bindings() {
    let config = KeybindingsConfig::new(String::from("nonexistent.yaml"), None).unwrap();
    assert_eq!(config.get("close-window"), Some(String::from("ESCAPE")));
    assert_eq!(config.get("previous-option"), Some(String::from("UP")));
    assert_eq!(config.get("next-option"), Some(String::from("DOWN")));
    assert_eq!(config.get("execute-primary-action"), Some(String::from("RETURN")));
    assert_eq!(config.get("execute-secondary-action"), Some(String::from("Alt + RETURN")));
    assert_eq!(config.get("show-window"), None);
    // a later save of the untouched defaults must succeed
    assert!(config.save().is_ok());
}

#[test]
fn malformed_document_is_fatal() {
    let sequence = KeybindingsConfig::new(
        String::from("bad.yaml"),
        Some(String::from("- close-window\n- ESCAPE\n")),
    );
    assert_eq!(sequence.err(), Some(ConfigError::DeserializationFailure));

    let nested = KeybindingsConfig::new(
        String::from("bad.yaml"),
        Some(String::from("close-window:\n  nested: ESCAPE\n")),
    );
    assert_eq!(nested.err(), Some(ConfigError::DeserializationFailure));

    let scalar = KeybindingsConfig::new(String::from("bad.yaml"), Some(String::from("not a map")));
    assert_eq!(scalar.err(), Some(ConfigError::DeserializationFailure));
}

#[test]
fn parse_simple_document() {
    let config = KeybindingsConfig::new(
        String::from("simple.yaml"),
        Some(String::from("key1: value1\nkey2: value2\n")),
    )
    .unwrap();
    assert_eq!(config.get("key1"), Some(String::from("value1")));
    assert_eq!(config.get("key2"), Some(String::from("value2")));
    assert_eq!(config.get("key3"), None);
}

#[test]
fn set_overwrites_previous_mapping() {
    let mut config = KeybindingsConfig::new(String::from("overwrite.yaml"), None).unwrap();
    config.set(vec![
        (String::from("first"), String::from("F1")),
        (String::from("second"), String::from("F2")),
    ]);
    assert_eq!(config.get("first"), Some(String::from("F1")));
    config.set(vec![(String::from("third"), String::from("F3"))]);
    assert_eq!(config.get("first"), None);
    assert_eq!(config.get("second"), None);
    assert_eq!(config.get("third"), Some(String::from("F3")));
    // nothing of the defaults remains either
    assert_eq!(config.get("close-window"), None);
}

#[test]
fn reverse_lookup_with_duplicate_values() {
    let mut config = KeybindingsConfig::new(String::from("dup.yaml"), None).unwrap();
    config.set(vec![
        (String::from("key1"), String::from("shared")),
        (String::from("key2"), String::from("shared")),
    ]);
    let found = config.get_key_from_value("shared");
    assert!(found == Some(String::from("key1")) || found == Some(String::from("key2")));
    assert_eq!(config.get_key_from_value("absent"), None);
}

#[test]
fn empty_mapping_round_trip() {
    let mut setup_config = KeybindingsConfig::new(String::from("empty.yaml"), None).unwrap();
    setup_config.set(Vec::new());
    assert_eq!(setup_config.get("close-window"), None);
    let text = setup_config.save().unwrap();
    let config = KeybindingsConfig::new(String::from("empty.yaml"), Some(text)).unwrap();
    assert_eq!(config.get("close-window"), None);
    assert_eq!(config.get_key_from_value("ESCAPE"), None);
}

#[test]
fn save_twice_succeeds_and_agrees() {
    let mut config = KeybindingsConfig::new(String::from("twice.yaml"), None).unwrap();
    config.set(sample_pairs());
    let first = config.save();
    assert!(first.is_ok());
    let second = config.save();
    assert!(second.is_ok());
    let reloaded_first =
        KeybindingsConfig::new(String::from("twice.yaml"), Some(first.unwrap())).unwrap();
    let reloaded_second =
        KeybindingsConfig::new(String::from("twice.yaml"), Some(second.unwrap())).unwrap();
    for i in 1..=5 {
        let key = format!("key{}", i);
        assert_eq!(reloaded_first.get(&key), reloaded_second.get(&key));
        assert_eq!(reloaded_first.get(&key), Some(format!("value{}", i)));
    }
}

#[test]
fn filename_is_kept() {
    let config = KeybindingsConfig::new(String::from("somewhere/keys.yaml"), None).unwrap();
    assert_eq!(config.filename(), "somewhere/keys.yaml");
}
