use evscript::config::{
    all_key_codes, registration_plan, resolve_keys, resolve_output_path, ConfigError, DeviceConfig,
    EventsConfig, KeyPlan, ScriptConfig,
};

#[test]
fn keys_a_and_b_resolve_to_exactly_their_codes() {
    let names = vec![String::from("A"), String::from("B")];
    let codes = resolve_keys(&names).unwrap();
    assert_eq!(codes, vec![30, 48]);
}

#[test]
fn an_unknown_key_name_is_a_config_error() {
    let names = vec![String::from("A"), String::from("THISISNOTAKEY")];
    match resolve_keys(&names) {
        Err(ConfigError::UnknownKey(n)) => {
            assert_eq!(n, "THISISNOTAKEY");
        },
        other => panic!("expected an unknown-key error, got {:?}", other),
    }
}

#[test]
fn config_error_message_names_the_key() {
    let e = ConfigError::UnknownKey(String::from("NOPE"));
    assert_eq!(e.message(), "unknown key in script config: NOPE");
}

#[test]
fn configured_keys_are_registered_and_nothing_more() {
    let cfg = ScriptConfig {
        device: None,
        events: EventsConfig { keys: Some(vec![String::from("A"), String::from("B")]) },
    };
    let plan = registration_plan(false, &cfg).unwrap();
    assert_eq!(plan, KeyPlan::Keys(vec![30, 48]));
}

#[test]
fn expr_mode_enables_every_key_unconditionally() {
    let cfg = ScriptConfig {
        device: None,
        events: EventsConfig { keys: Some(vec![String::from("THISISNOTAKEY")]) },
    };
    // The configuration is never consulted in literal-expression mode.
    assert_eq!(registration_plan(true, &cfg).unwrap(), KeyPlan::AllKeys);
}

#[test]
fn an_absent_key_list_enables_every_key() {
    let cfg = ScriptConfig::default();
    assert_eq!(registration_plan(false, &cfg).unwrap(), KeyPlan::AllKeys);
}

#[test]
fn the_default_key_range_walks_every_code_once() {
    let codes = all_key_codes();
    assert_eq!(codes.len(), 255);
    assert_eq!(codes[0], 0);
    assert_eq!(codes[254], 254);
    for (i, c) in codes.iter().enumerate() {
        assert_eq!(*c as usize, i);
    }
}

#[test]
fn device_identity_defaults_are_fixed() {
    let setup = DeviceConfig::empty().resolve();
    assert_eq!(setup.name, "Devicey McDeviceFace");
    assert_eq!(setup.bustype, 0x6);
    assert_eq!(setup.vendor, 0x69);
    assert_eq!(setup.product, 69);
    assert_eq!(setup.version, 0);
}

#[test]
fn configured_identity_overrides_every_default() {
    let cfg = DeviceConfig {
        name: Some(String::from("pedal board")),
        bustype: Some(0x3),
        vendor: Some(0x1234),
        product: Some(0x5678),
        version: Some(2),
    };
    let setup = cfg.resolve();
    assert_eq!(setup.name, "pedal board");
    assert_eq!(setup.bustype, 0x3);
    assert_eq!(setup.vendor, 0x1234);
    assert_eq!(setup.product, 0x5678);
    assert_eq!(setup.version, 2);
}

#[test]
fn output_path_defaults_and_overrides() {
    assert_eq!(resolve_output_path(None), "/dev/uinput");
    assert_eq!(resolve_output_path(Some(String::from("/tmp/uinput"))), "/tmp/uinput");
}
