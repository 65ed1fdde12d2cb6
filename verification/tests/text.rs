use croskb_settings::text::{
    format_flags, format_key_state, format_magic, format_make_code, format_override,
    is_no_detect, parse_key_state, parse_override, str_eq,
};

#[test]
fn key_state_names() {
    assert_eq!(format_key_state(0), "NoDetect");
    assert_eq!(format_key_state(1), "Enforce");
    assert_eq!(format_key_state(2), "EnforceNot");
    assert_eq!(format_key_state(3), "Unknown");
    assert_eq!(format_key_state(99), "Unknown");
    assert_eq!(format_key_state(-1), "Unknown");
    assert_eq!(format_key_state(i32::MIN), "Unknown");
}

#[test]
fn key_state_names_are_parsed() {
    assert_eq!(parse_key_state("Enforce"), 1);
    assert_eq!(parse_key_state("EnforceNot"), 2);
    assert_eq!(parse_key_state("NoDetect"), 0);
}

#[test]
fn other_texts_parse_as_no_detect() {
    assert_eq!(parse_key_state("Unknown"), 0);
    assert_eq!(parse_key_state(""), 0);
    assert_eq!(parse_key_state("enforce"), 0);
    assert_eq!(parse_key_state("Enforce "), 0);
    assert_eq!(parse_key_state("EnforceNo"), 0);
    assert_eq!(parse_key_state("Enforc\u{e9}"), 0);
}

#[test]
fn names_read_back_their_numbers() {
    for raw in 0..3 {
        assert_eq!(parse_key_state(format_key_state(raw)), raw);
        assert_eq!(parse_override(format_override(raw)), raw);
    }
    for raw in [-1, 3, 99, i32::MAX] {
        assert_eq!(parse_key_state(format_key_state(raw)), 0);
        assert_eq!(parse_override(format_override(raw)), 0);
    }
}

#[test]
fn override_names() {
    assert_eq!(format_override(0), "AutoDetect");
    assert_eq!(format_override(1), "Enable");
    assert_eq!(format_override(2), "Disable");
    assert_eq!(format_override(3), "Unknown");
    assert_eq!(format_override(-1), "Unknown");
    assert_eq!(parse_override("Enable"), 1);
    assert_eq!(parse_override("Disable"), 2);
    assert_eq!(parse_override("AutoDetect"), 0);
    assert_eq!(parse_override("Unknown"), 0);
    assert_eq!(parse_override("enable"), 0);
    assert_eq!(parse_override(""), 0);
}

#[test]
fn no_detect_is_recognised() {
    assert!(is_no_detect(&"NoDetect".to_string()));
    assert!(!is_no_detect(&"Enforce".to_string()));
    assert!(!is_no_detect(&"nodetect".to_string()));
    assert!(!is_no_detect(&String::new()));
}

#[test]
fn strings_are_compared_by_their_characters() {
    assert!(str_eq("", ""));
    assert!(str_eq("abc", "abc"));
    assert!(!str_eq("abc", "abd"));
    assert!(!str_eq("abc", "ab"));
    assert!(!str_eq("ab", "abc"));
    assert!(str_eq("gr\u{fc}n", "gr\u{fc}n"));
    assert!(!str_eq("gr\u{fc}n", "grun"));
}

#[test]
fn flags_in_words() {
    assert_eq!(format_flags(0), "NONE");
    assert_eq!(format_flags(1), "BREAK");
    assert_eq!(format_flags(2), "E0");
    assert_eq!(format_flags(3), "BREAK|E0");
    assert_eq!(format_flags(4), "E1");
    assert_eq!(format_flags(5), "BREAK|E1");
    assert_eq!(format_flags(6), "E0|E1");
    assert_eq!(format_flags(7), "BREAK|E0|E1");
}

#[test]
fn flags_without_a_name_are_left_out() {
    assert_eq!(format_flags(8), "NONE");
    assert_eq!(format_flags(0xFFF8), "NONE");
    assert_eq!(format_flags(0xFFFF), "BREAK|E0|E1");
    assert_eq!(format_flags(0x0102), "E0");
}

#[test]
fn make_codes_in_hexadecimal() {
    assert_eq!(format_make_code(0), "0x00");
    assert_eq!(format_make_code(0x0E), "0x0E");
    assert_eq!(format_make_code(0x1D), "0x1D");
    assert_eq!(format_make_code(0x6A), "0x6A");
    assert_eq!(format_make_code(0xFF), "0xFF");
    assert_eq!(format_make_code(0x100), "0x100");
    assert_eq!(format_make_code(0xABC), "0xABC");
    assert_eq!(format_make_code(0x1234), "0x1234");
    assert_eq!(format_make_code(0xFFFF), "0xFFFF");
}

#[test]
fn make_codes_agree_with_std() {
    for code in 0..=u16::MAX {
        assert_eq!(format_make_code(code), format!("0x{:02X}", code));
    }
}

#[test]
fn magic_in_hexadecimal() {
    assert_eq!(format_magic(0x4372_4B42), "0x43724B42");
    assert_eq!(format_magic(0), "0x00000000");
    assert_eq!(format_magic(0xABC), "0x00000ABC");
    assert_eq!(format_magic(u32::MAX), "0xFFFFFFFF");
    let mut word: u32 = 1;
    for _ in 0..500 {
        word = word.wrapping_mul(1_664_525).wrapping_add(1_013_904_223);
        assert_eq!(format_magic(word), format!("0x{:08X}", word));
    }
}
