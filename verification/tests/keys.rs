use whisperkeys::key::{key_from_code, key_from_wide_code, Key};

#[test]
fn letters_and_digits_translate() {
    assert_eq!(key_from_code(30), Key::KeyA);
    assert_eq!(key_from_code(44), Key::KeyZ);
    assert_eq!(key_from_code(2), Key::Num1);
    assert_eq!(key_from_code(11), Key::Num0);
    assert_eq!(key_from_code(1), Key::Escape);
    assert_eq!(key_from_code(57), Key::Space);
}

#[test]
fn function_and_keypad_keys_translate() {
    assert_eq!(key_from_code(59), Key::F1);
    assert_eq!(key_from_code(68), Key::F10);
    assert_eq!(key_from_code(87), Key::F11);
    assert_eq!(key_from_code(88), Key::F12);
    assert_eq!(key_from_code(82), Key::Kp0);
    assert_eq!(key_from_code(73), Key::Kp9);
    assert_eq!(key_from_code(3612), Key::KpReturn);
    assert_eq!(key_from_code(3666), Key::Function);
}

#[test]
fn two_codes_may_name_one_key() {
    assert_eq!(key_from_code(13), Key::Equal);
    assert_eq!(key_from_code(3597), Key::Equal);
    assert_eq!(key_from_code(52), Key::Dot);
    assert_eq!(key_from_code(83), Key::Dot);
    assert_eq!(key_from_code(57416), Key::UpArrow);
    assert_eq!(key_from_code(61000), Key::UpArrow);
    assert_eq!(key_from_code(3667), Key::Delete);
    assert_eq!(key_from_code(61011), Key::Delete);
}

#[test]
fn unlisted_code_keeps_its_value() {
    assert_eq!(key_from_code(0), Key::Unknown(0));
    assert_eq!(key_from_code(89), Key::Unknown(89));
    assert_eq!(key_from_code(65535), Key::Unknown(65535));
}

#[test]
fn every_code_translates() {
    let mut listed = 0;
    for code in 0..=u16::MAX {
        match key_from_code(code) {
            Key::Unknown(raw) => assert_eq!(raw, u32::from(code)),
            _ => listed += 1,
        }
    }
    assert_eq!(listed, 115);
}

#[test]
fn wide_codes_beyond_the_table_are_unknown() {
    assert_eq!(key_from_wide_code(30), Key::KeyA);
    assert_eq!(key_from_wide_code(65535), Key::Unknown(65535));
    assert_eq!(key_from_wide_code(65536), Key::Unknown(65536));
    assert_eq!(key_from_wide_code(999_999), Key::Unknown(999_999));
    assert_eq!(key_from_wide_code(u32::MAX), Key::Unknown(u32::MAX));
}

#[test]
fn identifiers_are_the_key_names() {
    assert_eq!(key_from_code(30).identifier(), "KeyA");
    assert_eq!(Key::ShiftLeft.identifier(), "ShiftLeft");
    assert_eq!(Key::IntlBackslash.identifier(), "IntlBackslash");
    assert_eq!(Key::Num0.identifier(), "Num0");
    assert_eq!(Key::UpArrow.identifier(), "UpArrow");
}

#[test]
fn unknown_codes_share_the_fallback_identifier() {
    assert_eq!(Key::Unknown(0).identifier(), "Unknown");
    assert_eq!(Key::Unknown(999_999).identifier(), "Unknown");
    for code in 0..=u16::MAX {
        let key = key_from_code(code);
        let unknown = matches!(key, Key::Unknown(_));
        assert_eq!(key.identifier() == "Unknown", unknown);
    }
}
