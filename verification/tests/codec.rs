use croskb_settings::codec::{
    decode, encode, encode_header_into, encode_record_into, read_header, read_record,
    starts_with_magic, validate_layout, DecodeError,
};
use croskb_settings::layout::{
    check_layout, LayoutError, CFG_MAGIC, HEADER_SIZE, RECORD_SIZE,
};
use croskb_settings::model::{
    ConfigFile, RemapCfg, RemapCfgKey, RemapCfgKeyState, RemapCfgOverride, RemapCfgsHeader,
    KEY_BREAK, KEY_E0, KEY_E1,
};

fn header(remappings: u32) -> RemapCfgsHeader {
    RemapCfgsHeader {
        magic: CFG_MAGIC,
        remappings,
        flip_search_and_assistant_on_pixelbook: false,
        has_assistant_key: RemapCfgOverride::AutoDetect,
        is_non_chrome_ec: RemapCfgOverride::AutoDetect,
    }
}

fn sample_rule() -> RemapCfg {
    RemapCfg {
        left_ctrl: RemapCfgKeyState::Enforce,
        left_alt: RemapCfgKeyState::EnforceNot,
        search: RemapCfgKeyState::NoDetect,
        assistant: RemapCfgKeyState::Unknown(99),
        left_shift: RemapCfgKeyState::Unknown(-1),
        right_ctrl: RemapCfgKeyState::Enforce,
        right_alt: RemapCfgKeyState::NoDetect,
        right_shift: RemapCfgKeyState::EnforceNot,
        original_key: RemapCfgKey::with_values(0x0E, 0),
        remap_vivaldi_to_fn_keys: true,
        remapped_key: RemapCfgKey::with_values(0x53, KEY_E0),
        additional_keys: [
            RemapCfgKey::with_values(0x1D, KEY_BREAK),
            RemapCfgKey::with_values(0x1234, KEY_BREAK | KEY_E0 | KEY_E1),
            RemapCfgKey::new(),
            RemapCfgKey::with_values(0xFFFF, 0xFFFF),
            RemapCfgKey::new(),
            RemapCfgKey::new(),
            RemapCfgKey::new(),
            RemapCfgKey::with_values(0x5B, KEY_E0),
        ],
    }
}

fn sample_record_bytes() -> Vec<u8> {
    let mut bytes = Vec::new();
    for state in [1i32, 2, 0, 99, -1, 1, 0, 2] {
        bytes.extend_from_slice(&state.to_le_bytes());
    }
    bytes.extend_from_slice(&[0x0E, 0x00, 0x00, 0x00]);
    bytes.push(1);
    bytes.extend_from_slice(&[0x53, 0x00, 0x02, 0x00]);
    bytes.extend_from_slice(&[0x1D, 0x00, 0x01, 0x00]);
    bytes.extend_from_slice(&[0x34, 0x12, 0x07, 0x00]);
    bytes.extend_from_slice(&[0x00, 0x00, 0x00, 0x00]);
    bytes.extend_from_slice(&[0xFF, 0xFF, 0xFF, 0xFF]);
    bytes.extend_from_slice(&[0u8; 12]);
    bytes.extend_from_slice(&[0x5B, 0x00, 0x02, 0x00]);
    bytes
}

/// A small generator of test values: a linear congruential sequence.
struct Lcg(u64);

impl Lcg {
    fn next(&mut self) -> u32 {
        self.0 = self.0.wrapping_mul(6_364_136_223_846_793_005).wrapping_add(1_442_695_040_888_963_407);
        (self.0 >> 32) as u32
    }

    fn state(&mut self) -> RemapCfgKeyState {
        match self.next() % 5 {
            0 => RemapCfgKeyState::NoDetect,
            1 => RemapCfgKeyState::Enforce,
            2 => RemapCfgKeyState::EnforceNot,
            3 => RemapCfgKeyState::from_raw(self.next() as i32),
            _ => RemapCfgKeyState::from_raw(-(1 + (self.next() % 1000) as i32)),
        }
    }

    fn over(&mut self) -> RemapCfgOverride {
        match self.next() % 4 {
            0 => RemapCfgOverride::AutoDetect,
            1 => RemapCfgOverride::Enable,
            2 => RemapCfgOverride::Disable,
            _ => RemapCfgOverride::from_raw(self.next() as i32),
        }
    }

    fn key(&mut self) -> RemapCfgKey {
        if self.next() % 3 == 0 {
            RemapCfgKey::new()
        } else {
            RemapCfgKey::with_values(self.next() as u16, self.next() as u16)
        }
    }

    fn rule(&mut self) -> RemapCfg {
        RemapCfg {
            left_ctrl: self.state(),
            left_alt: self.state(),
            search: self.state(),
            assistant: self.state(),
            left_shift: self.state(),
            right_ctrl: self.state(),
            right_alt: self.state(),
            right_shift: self.state(),
            original_key: self.key(),
            remap_vivaldi_to_fn_keys: self.next() % 2 == 0,
            remapped_key: self.key(),
            additional_keys: [
                self.key(),
                self.key(),
                self.key(),
                self.key(),
                self.key(),
                self.key(),
                self.key(),
                self.key(),
            ],
        }
    }

    fn config(&mut self, rules: usize) -> ConfigFile {
        ConfigFile {
            header: RemapCfgsHeader {
                magic: CFG_MAGIC,
                remappings: rules as u32,
                flip_search_and_assistant_on_pixelbook: self.next() % 2 == 0,
                has_assistant_key: self.over(),
                is_non_chrome_ec: self.over(),
            },
            rules: (0..rules).map(|_| self.rule()).collect(),
        }
    }
}

#[test]
fn sizes_are_17_and_73() {
    assert_eq!(HEADER_SIZE, 17);
    assert_eq!(RECORD_SIZE, 73);
    let mut bytes = Vec::new();
    encode_header_into(&mut bytes, &header(0));
    assert_eq!(bytes.len(), 17);
    let mut bytes = Vec::new();
    encode_record_into(&mut bytes, &RemapCfg::new());
    assert_eq!(bytes.len(), 73);
    let mut bytes = Vec::new();
    encode_record_into(&mut bytes, &sample_rule());
    assert_eq!(bytes.len(), 73);
}

#[test]
fn layout_check_passes_for_this_build() {
    assert_eq!(validate_layout(), Ok(()));
}

#[test]
fn layout_check_names_the_wrong_size() {
    assert_eq!(check_layout(17, 73), Ok(()));
    assert_eq!(check_layout(20, 73), Err(LayoutError::HeaderSize { found: 20 }));
    assert_eq!(check_layout(17, 76), Err(LayoutError::RecordSize { found: 76 }));
    assert_eq!(check_layout(18, 74), Err(LayoutError::HeaderSize { found: 18 }));
    assert_eq!(check_layout(0, 0), Err(LayoutError::HeaderSize { found: 0 }));
}

#[test]
fn magic_is_the_bytes_bkrc() {
    assert_eq!(CFG_MAGIC, u32::from_le_bytes(*b"BKrC"));
    let bytes = encode(&ConfigFile { header: header(0), rules: vec![] });
    assert_eq!(&bytes[0..4], b"BKrC");
    assert_eq!(&bytes[0..4], &[0x42, 0x4B, 0x72, 0x43]);
}

#[test]
fn header_is_written_field_by_field() {
    let config = ConfigFile {
        header: RemapCfgsHeader {
            magic: CFG_MAGIC,
            remappings: 0,
            flip_search_and_assistant_on_pixelbook: true,
            has_assistant_key: RemapCfgOverride::Enable,
            is_non_chrome_ec: RemapCfgOverride::Disable,
        },
        rules: vec![],
    };
    assert_eq!(
        encode(&config),
        vec![0x42, 0x4B, 0x72, 0x43, 0, 0, 0, 0, 1, 1, 0, 0, 0, 2, 0, 0, 0]
    );
    let mut bytes = Vec::new();
    encode_header_into(
        &mut bytes,
        &RemapCfgsHeader {
            magic: 0x0102_0304,
            remappings: 0x0A0B_0C0D,
            flip_search_and_assistant_on_pixelbook: false,
            has_assistant_key: RemapCfgOverride::Unknown(-1),
            is_non_chrome_ec: RemapCfgOverride::Unknown(7),
        },
    );
    assert_eq!(
        bytes,
        vec![4, 3, 2, 1, 0x0D, 0x0C, 0x0B, 0x0A, 0, 0xFF, 0xFF, 0xFF, 0xFF, 7, 0, 0, 0]
    );
}

#[test]
fn record_is_written_field_by_field() {
    let mut bytes = Vec::new();
    encode_record_into(&mut bytes, &sample_rule());
    assert_eq!(bytes, sample_record_bytes());
    let mut blank = Vec::new();
    encode_record_into(&mut blank, &RemapCfg::new());
    assert_eq!(blank, vec![0u8; 73]);
}

#[test]
fn record_is_read_field_by_field() {
    assert_eq!(read_record(&sample_record_bytes()), sample_rule());
    assert_eq!(read_record(&[0u8; 73]), RemapCfg::new());
}

#[test]
fn encode_appends_records_without_gaps() {
    let config = ConfigFile { header: header(2), rules: vec![sample_rule(), RemapCfg::new()] };
    let bytes = encode(&config);
    assert_eq!(bytes.len(), 17 + 73 * 2);
    assert_eq!(&bytes[4..8], &[2, 0, 0, 0]);
    assert_eq!(&bytes[17..90], &sample_record_bytes()[..]);
    assert_eq!(&bytes[90..163], &[0u8; 73][..]);
}

#[test]
fn encode_length_is_17_plus_73_per_record() {
    let mut lcg = Lcg(7);
    for rules in [0usize, 1, 2, 5, 40, 255] {
        let config = lcg.config(rules);
        assert_eq!(encode(&config).len(), 17 + 73 * rules);
    }
}

#[test]
fn round_trip_of_generated_files() {
    let mut lcg = Lcg(2024);
    for round in 0..60 {
        let config = lcg.config(round % 7);
        assert!(config.is_complete());
        let bytes = encode(&config);
        assert_eq!(decode(&bytes), Ok(config));
    }
}

#[test]
fn round_trip_keeps_unknown_values() {
    let mut config = ConfigFile { header: header(1), rules: vec![sample_rule()] };
    config.header.has_assistant_key = RemapCfgOverride::Unknown(1234);
    config.header.is_non_chrome_ec = RemapCfgOverride::Unknown(i32::MIN);
    let bytes = encode(&config);
    let back = decode(&bytes).unwrap();
    assert_eq!(back, config);
    assert_eq!(back.rules[0].assistant, RemapCfgKeyState::Unknown(99));
    assert_eq!(encode(&back), bytes);
}

#[test]
fn decoded_bytes_are_encoded_unchanged() {
    let mut lcg = Lcg(99);
    let bytes = encode(&lcg.config(3));
    let back = decode(&bytes).unwrap();
    assert_eq!(encode(&back), bytes);
}

#[test]
fn too_short_below_17_bytes() {
    assert_eq!(decode(&[]), Err(DecodeError::TooShort { len: 0 }));
    assert_eq!(decode(b"BKrC"), Err(DecodeError::TooShort { len: 4 }));
    let bytes = encode(&ConfigFile { header: header(0), rules: vec![] });
    assert_eq!(decode(&bytes[..16]), Err(DecodeError::TooShort { len: 16 }));
    assert!(decode(&bytes[..17]).is_ok());
}

#[test]
fn too_short_is_judged_before_the_magic() {
    assert_eq!(decode(&[0u8; 16]), Err(DecodeError::TooShort { len: 16 }));
    assert_eq!(decode(&[0u8; 17]), Err(DecodeError::BadMagic { found: 0 }));
}

#[test]
fn bad_magic_for_every_flipped_byte() {
    let good = encode(&ConfigFile { header: header(1), rules: vec![sample_rule()] });
    for at in 0..4 {
        for bit in 0..8 {
            let mut bytes = good.clone();
            bytes[at] ^= 1 << bit;
            let found = u32::from_le_bytes([bytes[0], bytes[1], bytes[2], bytes[3]]);
            assert_eq!(decode(&bytes), Err(DecodeError::BadMagic { found }));
            assert!(!starts_with_magic(&bytes));
        }
        let mut bytes = good.clone();
        bytes[at] = !bytes[at];
        assert!(matches!(decode(&bytes), Err(DecodeError::BadMagic { .. })));
    }
    assert!(starts_with_magic(&good));
}

#[test]
fn bad_magic_for_the_reversed_tag() {
    let mut bytes = encode(&ConfigFile { header: header(0), rules: vec![] });
    bytes[0..4].copy_from_slice(b"CrKB");
    assert_eq!(
        decode(&bytes),
        Err(DecodeError::BadMagic { found: u32::from_le_bytes(*b"CrKB") })
    );
    assert_eq!(decode(&bytes), Err(DecodeError::BadMagic { found: 0x424B_7243 }));
}

#[test]
fn truncated_by_one_byte_yields_one_record_less() {
    let mut lcg = Lcg(5);
    for k in 1usize..6 {
        let config = lcg.config(k);
        let bytes = encode(&config);
        let cut = &bytes[..17 + 73 * k - 1];
        let back = decode(cut).unwrap();
        assert_eq!(back.rules.len(), k - 1);
        assert_eq!(back.rules[..], config.rules[..k - 1]);
        assert_eq!(back.header, config.header);
        assert_eq!(back.header.remappings as usize, k);
        assert!(!back.is_complete());
    }
}

#[test]
fn truncated_inside_the_first_record_yields_none() {
    let bytes = encode(&ConfigFile { header: header(1), rules: vec![sample_rule()] });
    for len in 17..17 + 73 {
        let back = decode(&bytes[..len]).unwrap();
        assert!(back.rules.is_empty());
        assert_eq!(back.header.remappings, 1);
    }
}

#[test]
fn declared_count_larger_than_the_buffer() {
    let mut bytes = encode(&ConfigFile { header: header(2), rules: vec![sample_rule(), RemapCfg::new()] });
    bytes[4..8].copy_from_slice(&u32::MAX.to_le_bytes());
    let back = decode(&bytes).unwrap();
    assert_eq!(back.header.remappings, u32::MAX);
    assert_eq!(back.rules, vec![sample_rule(), RemapCfg::new()]);
}

#[test]
fn bytes_behind_the_declared_records_are_ignored() {
    let config = ConfigFile { header: header(1), rules: vec![sample_rule()] };
    let mut bytes = encode(&config);
    bytes.extend_from_slice(&[0xAB; 100]);
    assert_eq!(decode(&bytes), Ok(config));
}

#[test]
fn unknown_modifier_99_is_not_an_error() {
    let mut bytes = encode(&ConfigFile { header: header(1), rules: vec![RemapCfg::new()] });
    bytes[17 + 8..17 + 12].copy_from_slice(&99i32.to_le_bytes());
    let back = decode(&bytes).unwrap();
    assert_eq!(back.rules.len(), 1);
    assert_eq!(back.rules[0].search, RemapCfgKeyState::Unknown(99));
    assert_eq!(back.rules[0].left_ctrl, RemapCfgKeyState::NoDetect);
    assert_eq!(back.rules[0].search.to_raw(), 99);
    let mut expected = RemapCfg::new();
    expected.search = RemapCfgKeyState::Unknown(99);
    assert_eq!(back.rules[0], expected);
}

#[test]
fn unknown_override_is_not_an_error() {
    let mut bytes = encode(&ConfigFile { header: header(0), rules: vec![] });
    bytes[9..13].copy_from_slice(&3i32.to_le_bytes());
    bytes[13..17].copy_from_slice(&(-7i32).to_le_bytes());
    let back = decode(&bytes).unwrap();
    assert_eq!(back.header.has_assistant_key, RemapCfgOverride::Unknown(3));
    assert_eq!(back.header.is_non_chrome_ec, RemapCfgOverride::Unknown(-7));
}

#[test]
fn every_modifier_has_its_own_place() {
    for slot in 0..8usize {
        let mut bytes = vec![0u8; 73];
        bytes[4 * slot] = 1;
        let rule = read_record(&bytes);
        let states = [
            rule.left_ctrl,
            rule.left_alt,
            rule.search,
            rule.assistant,
            rule.left_shift,
            rule.right_ctrl,
            rule.right_alt,
            rule.right_shift,
        ];
        for (i, state) in states.iter().enumerate() {
            let expected = if i == slot { RemapCfgKeyState::Enforce } else { RemapCfgKeyState::NoDetect };
            assert_eq!(*state, expected);
        }
    }
}

#[test]
fn every_additional_key_has_its_own_place() {
    for slot in 0..8usize {
        let mut bytes = vec![0u8; 73];
        bytes[0x29 + 4 * slot] = 0x1D;
        bytes[0x29 + 4 * slot + 2] = 0x01;
        let rule = read_record(&bytes);
        for (i, key) in rule.additional_keys.iter().enumerate() {
            if i == slot {
                assert_eq!(*key, RemapCfgKey::with_values(0x1D, KEY_BREAK));
            } else {
                assert_eq!(*key, RemapCfgKey::new());
            }
        }
        assert_eq!(rule.original_key, RemapCfgKey::new());
        assert_eq!(rule.remapped_key, RemapCfgKey::new());
    }
}

#[test]
fn flags_are_a_bitset() {
    let mut bytes = vec![0u8; 73];
    bytes[0x20..0x24].copy_from_slice(&[0x1D, 0x00, 0x07, 0x00]);
    bytes[0x25..0x29].copy_from_slice(&[0x38, 0x00, 0x03, 0x80]);
    let rule = read_record(&bytes);
    assert_eq!(rule.original_key.make_code, 0x1D);
    assert_eq!(rule.original_key.flags, KEY_BREAK | KEY_E0 | KEY_E1);
    assert_eq!(rule.remapped_key.flags, 0x8003);
    assert_ne!(rule.remapped_key.flags & KEY_BREAK, 0);
    assert_ne!(rule.remapped_key.flags & KEY_E0, 0);
    assert_eq!(rule.remapped_key.flags & KEY_E1, 0);
}

#[test]
fn any_nonzero_flag_byte_is_true() {
    let mut bytes = vec![0u8; 73];
    bytes[0x24] = 0x80;
    assert!(read_record(&bytes).remap_vivaldi_to_fn_keys);
    bytes[0x24] = 0;
    assert!(!read_record(&bytes).remap_vivaldi_to_fn_keys);
    let mut file = encode(&ConfigFile { header: header(0), rules: vec![] });
    file[8] = 2;
    assert!(read_header(&file).flip_search_and_assistant_on_pixelbook);
    assert!(decode(&file).unwrap().header.flip_search_and_assistant_on_pixelbook);
}

#[test]
fn header_is_read_whatever_the_magic() {
    let bytes = [9u8, 9, 9, 9, 5, 0, 0, 0, 1, 2, 0, 0, 0, 1, 0, 0, 0];
    let header = read_header(&bytes);
    assert_eq!(header.magic, 0x0909_0909);
    assert_eq!(header.remappings, 5);
    assert!(header.flip_search_and_assistant_on_pixelbook);
    assert_eq!(header.has_assistant_key, RemapCfgOverride::Disable);
    assert_eq!(header.is_non_chrome_ec, RemapCfgOverride::Enable);
}

#[test]
fn random_buffers_never_panic() {
    let mut lcg = Lcg(31337);
    for len in 0..400usize {
        let mut bytes: Vec<u8> = (0..len).map(|_| lcg.next() as u8).collect();
        let _ = decode(&bytes);
        if len >= 4 {
            bytes[0..4].copy_from_slice(b"BKrC");
            let result = decode(&bytes);
            if len < 17 {
                assert_eq!(result, Err(DecodeError::TooShort { len }));
            } else {
                let config = result.unwrap();
                let declared = u32::from_le_bytes([bytes[4], bytes[5], bytes[6], bytes[7]]);
                let fitting = (len - 17) / 73;
                assert_eq!(config.rules.len(), fitting.min(declared as usize));
            }
        }
    }
}

#[test]
fn hand_built_buffer_is_encoded_unchanged() {
    let mut bytes = vec![0x42, 0x4B, 0x72, 0x43, 2, 0, 0, 0, 1];
    bytes.extend_from_slice(&(-5i32).to_le_bytes());
    bytes.extend_from_slice(&77i32.to_le_bytes());
    bytes.extend_from_slice(&sample_record_bytes());
    let mut second = vec![0u8; 73];
    for (i, byte) in second.iter_mut().enumerate() {
        *byte = (i as u8).wrapping_mul(37).wrapping_add(11);
    }
    second[0x24] = 0;
    bytes.extend_from_slice(&second);
    assert_eq!(bytes.len(), 17 + 73 * 2);
    let config = decode(&bytes).unwrap();
    assert!(config.is_complete());
    assert_eq!(encode(&config), bytes);
    let mut longer = bytes.clone();
    longer.extend_from_slice(&[1, 2, 3]);
    let config = decode(&longer).unwrap();
    assert_eq!(encode(&config), bytes);
}

#[test]
fn flag_byte_other_than_0_and_1_is_written_as_1() {
    let mut bytes = encode(&ConfigFile { header: header(1), rules: vec![RemapCfg::new()] });
    bytes[8] = 0x40;
    bytes[17 + 0x24] = 0xFF;
    let config = decode(&bytes).unwrap();
    let again = encode(&config);
    assert_eq!(again[8], 1);
    assert_eq!(again[17 + 0x24], 1);
    let mut expected = bytes.clone();
    expected[8] = 1;
    expected[17 + 0x24] = 1;
    assert_eq!(again, expected);
}
