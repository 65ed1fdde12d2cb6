use croskb_settings::codec::{decode, encode, DecodeError};
use croskb_settings::demo::{default_config, demo_config};
use croskb_settings::json::{
    config_from_json, generate_config_from_json, read_config, ConfigEntryJson, ConfigFileJson,
    GenerateError, RemapCfgKeyJson, MAX_CONFIGS,
};
use croskb_settings::layout::CFG_MAGIC;
use croskb_settings::model::{
    ConfigFile, RemapCfg, RemapCfgKey, RemapCfgKeyState, RemapCfgOverride, RemapCfgsHeader,
    KEY_BREAK, KEY_E0, KEY_E1,
};

fn blank_entry(index: u32) -> ConfigEntryJson {
    ConfigEntryJson::from_rule(index, &RemapCfg::new())
}

fn json_with(configs: Vec<ConfigEntryJson>) -> ConfigFileJson {
    ConfigFileJson {
        magic: String::new(),
        magic_hex: String::new(),
        valid: false,
        remappings: 0,
        flip_search_and_assistant_on_pixelbook: false,
        has_assistant_key: "AutoDetect".to_string(),
        is_non_chrome_ec: "AutoDetect".to_string(),
        file_size_bytes: 0,
        expected_size_bytes: 0,
        configs,
    }
}

#[test]
fn key_json_is_annotated() {
    let key = RemapCfgKeyJson::new(0x1D, KEY_BREAK);
    assert_eq!(key.make_code, 0x1D);
    assert_eq!(key.make_code_hex, "0x1D");
    assert_eq!(key.flags, 1);
    assert_eq!(key.flags_decoded, vec!["KEY_BREAK".to_string()]);
    let key = RemapCfgKeyJson::new(0x0E, 0);
    assert_eq!(key.make_code_hex, "0x0E");
    assert!(key.flags_decoded.is_empty());
    let key = RemapCfgKeyJson::new(0x1234, 7);
    assert_eq!(key.make_code_hex, "0x1234");
    assert_eq!(
        key.flags_decoded,
        vec!["KEY_BREAK".to_string(), "KEY_E0".to_string(), "KEY_E1".to_string()]
    );
    let key = RemapCfgKeyJson::new(0x53, KEY_E0 | KEY_E1 | 0x10);
    assert_eq!(key.flags, 0x16);
    assert_eq!(key.flags_decoded, vec!["KEY_E0".to_string(), "KEY_E1".to_string()]);
}

#[test]
fn key_json_is_empty_when_both_are_zero() {
    assert!(RemapCfgKeyJson::new(0, 0).is_empty());
    assert!(!RemapCfgKeyJson::new(1, 0).is_empty());
    assert!(!RemapCfgKeyJson::new(0, 1).is_empty());
    assert_eq!(RemapCfgKeyJson::new(0, 0).make_code_hex, "0x00");
}

#[test]
fn key_json_goes_back_to_the_key() {
    assert_eq!(RemapCfgKeyJson::new(0x53, 2).to_key(), RemapCfgKey::with_values(0x53, 2));
    let mut edited = RemapCfgKeyJson::new(0x53, 2);
    edited.make_code_hex = "0xFF".to_string();
    edited.flags_decoded.clear();
    assert_eq!(edited.to_key(), RemapCfgKey::with_values(0x53, 2));
}

#[test]
fn entry_names_the_modifiers() {
    let mut rule = RemapCfg::new();
    rule.left_ctrl = RemapCfgKeyState::Enforce;
    rule.left_alt = RemapCfgKeyState::EnforceNot;
    rule.assistant = RemapCfgKeyState::Unknown(99);
    rule.original_key = RemapCfgKey::with_values(0x0E, 0);
    rule.remap_vivaldi_to_fn_keys = true;
    let entry = ConfigEntryJson::from_rule(7, &rule);
    assert_eq!(entry.index, 7);
    assert_eq!(entry.left_ctrl, "Enforce");
    assert_eq!(entry.left_alt, "EnforceNot");
    assert_eq!(entry.search, "NoDetect");
    assert_eq!(entry.assistant, "Unknown");
    assert_eq!(entry.left_shift, "NoDetect");
    assert_eq!(entry.right_ctrl, "NoDetect");
    assert_eq!(entry.right_alt, "NoDetect");
    assert_eq!(entry.right_shift, "NoDetect");
    assert_eq!(entry.original_key, RemapCfgKeyJson::new(0x0E, 0));
    assert!(entry.remap_vivaldi_to_fn);
    assert_eq!(entry.remapped_key, None);
    assert!(entry.additional_keys.is_empty());
}

#[test]
fn entry_leaves_out_unset_keys() {
    let mut rule = RemapCfg::new();
    rule.remapped_key = RemapCfgKey::with_values(0, KEY_E0);
    rule.additional_keys[1] = RemapCfgKey::with_values(0x1D, KEY_BREAK);
    rule.additional_keys[4] = RemapCfgKey::with_values(0x5B, KEY_E0);
    rule.additional_keys[7] = RemapCfgKey::with_values(0x2A, 0);
    let entry = ConfigEntryJson::from_rule(0, &rule);
    assert_eq!(entry.remapped_key, Some(RemapCfgKeyJson::new(0, KEY_E0)));
    assert_eq!(
        entry.additional_keys,
        vec![
            RemapCfgKeyJson::new(0x1D, KEY_BREAK),
            RemapCfgKeyJson::new(0x5B, KEY_E0),
            RemapCfgKeyJson::new(0x2A, 0),
        ]
    );
}

#[test]
fn entry_goes_back_to_the_rule() {
    let mut rule = RemapCfg::new();
    rule.left_ctrl = RemapCfgKeyState::Enforce;
    rule.search = RemapCfgKeyState::EnforceNot;
    rule.right_shift = RemapCfgKeyState::Enforce;
    rule.original_key = RemapCfgKey::with_values(0x11, KEY_E0);
    rule.remapped_key = RemapCfgKey::with_values(0x19, 0);
    rule.additional_keys[0] = RemapCfgKey::with_values(0x1D, KEY_BREAK);
    rule.additional_keys[1] = RemapCfgKey::with_values(0x2A, KEY_BREAK);
    rule.additional_keys[2] = RemapCfgKey::with_values(0x5B, KEY_E0);
    assert_eq!(ConfigEntryJson::from_rule(3, &rule).to_rule(), rule);
}

#[test]
fn entry_packs_additional_keys_to_the_front() {
    let mut rule = RemapCfg::new();
    rule.additional_keys[5] = RemapCfgKey::with_values(0x1D, KEY_BREAK);
    let back = ConfigEntryJson::from_rule(0, &rule).to_rule();
    assert_eq!(back.additional_keys[0], RemapCfgKey::with_values(0x1D, KEY_BREAK));
    assert_eq!(back.additional_keys[5], RemapCfgKey::new());
}

#[test]
fn entry_with_unknown_or_odd_names() {
    let mut entry = blank_entry(0);
    entry.left_ctrl = "Unknown".to_string();
    entry.left_alt = "enforce".to_string();
    entry.search = String::new();
    entry.assistant = "EnforceNot".to_string();
    entry.left_shift = "Enforce".to_string();
    let rule = entry.to_rule();
    assert_eq!(rule.left_ctrl, RemapCfgKeyState::NoDetect);
    assert_eq!(rule.left_alt, RemapCfgKeyState::NoDetect);
    assert_eq!(rule.search, RemapCfgKeyState::NoDetect);
    assert_eq!(rule.assistant, RemapCfgKeyState::EnforceNot);
    assert_eq!(rule.left_shift, RemapCfgKeyState::Enforce);
}

#[test]
fn entry_drops_additional_keys_behind_the_eighth() {
    let mut entry = blank_entry(0);
    entry.additional_keys = (1..=10).map(|i| RemapCfgKeyJson::new(i, KEY_E0)).collect();
    let rule = entry.to_rule();
    for slot in 0..8 {
        assert_eq!(rule.additional_keys[slot], RemapCfgKey::with_values(slot as u16 + 1, KEY_E0));
    }
    let mut short = blank_entry(0);
    short.additional_keys = vec![RemapCfgKeyJson::new(9, KEY_E1)];
    let rule = short.to_rule();
    assert_eq!(rule.additional_keys[0], RemapCfgKey::with_values(9, KEY_E1));
    for slot in 1..8 {
        assert_eq!(rule.additional_keys[slot], RemapCfgKey::new());
    }
}

#[test]
fn read_config_of_the_default_file() {
    let bytes = demo_config().unwrap();
    let json = read_config(&bytes).unwrap();
    assert_eq!(json.magic, "BKrC");
    assert_eq!(json.magic_hex, "0x43724B42");
    assert!(json.valid);
    assert_eq!(json.remappings, 40);
    assert!(json.flip_search_and_assistant_on_pixelbook);
    assert_eq!(json.has_assistant_key, "AutoDetect");
    assert_eq!(json.is_non_chrome_ec, "AutoDetect");
    assert_eq!(json.file_size_bytes, 2937);
    assert_eq!(json.expected_size_bytes, 2937);
    assert_eq!(json.configs.len(), 40);
    for (i, entry) in json.configs.iter().enumerate() {
        assert_eq!(entry.index as usize, i);
    }
    let entry = &json.configs[19];
    assert_eq!(entry.left_ctrl, "Enforce");
    assert_eq!(entry.left_alt, "Enforce");
    assert_eq!(entry.search, "NoDetect");
    assert_eq!(entry.original_key, RemapCfgKeyJson::new(0x0E, 0));
    assert_eq!(entry.remapped_key, Some(RemapCfgKeyJson::new(0x53, KEY_E0)));
    assert!(!entry.remap_vivaldi_to_fn);
    assert!(entry.additional_keys.is_empty());
    let entry = &json.configs[22];
    assert_eq!(
        entry.additional_keys,
        vec![
            RemapCfgKeyJson::new(0x1D, KEY_BREAK),
            RemapCfgKeyJson::new(0x2A, KEY_BREAK),
            RemapCfgKeyJson::new(0x5B, KEY_E0),
        ]
    );
    let entry = &json.configs[0];
    assert_eq!(entry.left_ctrl, "EnforceNot");
    assert!(entry.remap_vivaldi_to_fn);
    assert_eq!(entry.remapped_key, None);
    assert_eq!(entry.original_key.make_code_hex, "0x6A");
    assert_eq!(entry.original_key.flags_decoded, vec!["KEY_E0".to_string()]);
}

#[test]
fn read_config_refuses_what_decode_refuses() {
    assert_eq!(read_config(&[]), Err(DecodeError::TooShort { len: 0 }));
    assert_eq!(read_config(&[0u8; 16]), Err(DecodeError::TooShort { len: 16 }));
    let mut bytes = demo_config().unwrap();
    bytes[3] = 0x44;
    assert_eq!(read_config(&bytes), Err(DecodeError::BadMagic { found: 0x4472_4B42 }));
}

#[test]
fn read_config_of_a_truncated_file() {
    let bytes = demo_config().unwrap();
    let json = read_config(&bytes[..17 + 73 * 3 - 1]).unwrap();
    assert_eq!(json.remappings, 40);
    assert_eq!(json.configs.len(), 2);
    assert_eq!(json.file_size_bytes, 17 + 73 * 3 - 1);
    assert_eq!(json.expected_size_bytes, 2937);
}

#[test]
fn read_config_names_the_overrides() {
    let config = ConfigFile {
        header: RemapCfgsHeader {
            magic: CFG_MAGIC,
            remappings: 0,
            flip_search_and_assistant_on_pixelbook: false,
            has_assistant_key: RemapCfgOverride::Enable,
            is_non_chrome_ec: RemapCfgOverride::Unknown(5),
        },
        rules: vec![],
    };
    let json = read_config(&encode(&config)).unwrap();
    assert_eq!(json.has_assistant_key, "Enable");
    assert_eq!(json.is_non_chrome_ec, "Unknown");
    assert!(!json.flip_search_and_assistant_on_pixelbook);
    assert_eq!(json.expected_size_bytes, 17);
    assert!(json.configs.is_empty());
    let mut declared = encode(&config);
    declared[4..8].copy_from_slice(&u32::MAX.to_le_bytes());
    let json = read_config(&declared).unwrap();
    assert_eq!(json.remappings, u32::MAX);
    assert_eq!(json.expected_size_bytes, 17 + 73 * (u32::MAX as u64));
}

#[test]
fn generated_file_equals_the_dumped_one() {
    let bytes = demo_config().unwrap();
    let json = read_config(&bytes).unwrap();
    assert_eq!(generate_config_from_json(&json), Ok(bytes));
    assert_eq!(config_from_json(&json), Ok(default_config()));
}

#[test]
fn generate_reads_only_what_counts() {
    let mut json = json_with(vec![blank_entry(5), blank_entry(5)]);
    json.remappings = 77;
    json.flip_search_and_assistant_on_pixelbook = true;
    json.has_assistant_key = "Disable".to_string();
    json.is_non_chrome_ec = "Enable".to_string();
    let bytes = generate_config_from_json(&json).unwrap();
    assert_eq!(bytes.len(), 17 + 73 * 2);
    let config = decode(&bytes).unwrap();
    assert_eq!(config.header.magic, CFG_MAGIC);
    assert_eq!(config.header.remappings, 2);
    assert!(config.header.flip_search_and_assistant_on_pixelbook);
    assert_eq!(config.header.has_assistant_key, RemapCfgOverride::Disable);
    assert_eq!(config.header.is_non_chrome_ec, RemapCfgOverride::Enable);
    assert_eq!(config.rules, vec![RemapCfg::new(); 2]);
}

#[test]
fn generate_reads_odd_override_names_as_auto_detect() {
    let mut json = json_with(vec![]);
    json.has_assistant_key = "Unknown".to_string();
    json.is_non_chrome_ec = "disable".to_string();
    let config = config_from_json(&json).unwrap();
    assert_eq!(config.header.has_assistant_key, RemapCfgOverride::AutoDetect);
    assert_eq!(config.header.is_non_chrome_ec, RemapCfgOverride::AutoDetect);
    assert_eq!(generate_config_from_json(&json).unwrap().len(), 17);
}

#[test]
fn generate_refuses_more_than_255_entries() {
    assert_eq!(MAX_CONFIGS, 255);
    let json = json_with((0..256).map(blank_entry).collect());
    assert_eq!(
        generate_config_from_json(&json),
        Err(GenerateError::TooManyConfigs { count: 256 })
    );
    assert_eq!(config_from_json(&json), Err(GenerateError::TooManyConfigs { count: 256 }));
    let json = json_with((0..300).map(blank_entry).collect());
    assert_eq!(
        generate_config_from_json(&json),
        Err(GenerateError::TooManyConfigs { count: 300 })
    );
}

#[test]
fn generate_accepts_255_entries() {
    let json = json_with((0..255).map(blank_entry).collect());
    let bytes = generate_config_from_json(&json).unwrap();
    assert_eq!(bytes.len(), 17 + 73 * 255);
    assert_eq!(&bytes[4..8], &[255, 0, 0, 0]);
    assert_eq!(decode(&bytes).unwrap().rules.len(), 255);
}
