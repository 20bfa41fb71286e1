//! Tests of the field validators: integer parsing, class labels, and the
//! rendered error messages.

use character_sheet::character_model::{Character, CharacterClass};
use character_sheet::common::CharError;
use character_sheet::text::parse_i32;

#[test]
fn parse_accepts_what_rust_accepts() {
    assert_eq!(parse_i32("0"), Some(0));
    assert_eq!(parse_i32("18"), Some(18));
    assert_eq!(parse_i32("+5"), Some(5));
    assert_eq!(parse_i32("-0"), Some(0));
    assert_eq!(parse_i32("007"), Some(7));
    assert_eq!(parse_i32("-2147483648"), Some(i32::MIN));
    assert_eq!(parse_i32("2147483647"), Some(i32::MAX));
    assert_eq!(parse_i32("0000000000000000001"), Some(1));
}

#[test]
fn parse_rejects_what_rust_rejects() {
    assert_eq!(parse_i32(""), None);
    assert_eq!(parse_i32("+"), None);
    assert_eq!(parse_i32("-"), None);
    assert_eq!(parse_i32(" 5"), None);
    assert_eq!(parse_i32("5 "), None);
    assert_eq!(parse_i32("4d6"), None);
    assert_eq!(parse_i32("five"), None);
    assert_eq!(parse_i32("--5"), None);
    assert_eq!(parse_i32("+-5"), None);
    assert_eq!(parse_i32("2147483648"), None);
    assert_eq!(parse_i32("-2147483649"), None);
    assert_eq!(parse_i32("99999999999999999999"), None);
    assert_eq!(parse_i32("١٢٣"), None);
}

#[test]
fn parse_matches_std_on_a_sample() {
    for s in [
        "", "0", "-1", "+42", "25", "26", "abc", "12a", "a12", "2147483647", "2147483648",
        "-2147483648", "-2147483649", " 1", "1 ", "00", "-007", "+0",
    ] {
        assert_eq!(parse_i32(s), s.parse::<i32>().ok(), "input {:?}", s);
    }
}

#[test]
fn class_labels_round_trip() {
    for class in [
        CharacterClass::Fighter,
        CharacterClass::Cleric,
        CharacterClass::Wizard,
        CharacterClass::Rogue,
    ] {
        assert_eq!(CharacterClass::from_str(class.label()), Ok(class));
    }
}

#[test]
fn class_match_is_case_sensitive_and_exact() {
    for bad in ["Elf", "fighter", "FIGHTER", "", "Fighter ", "Wiz"] {
        assert_eq!(
            CharacterClass::from_str(bad),
            Err(CharError::CharacterClassParseError(bad.to_string()))
        );
    }
}

#[test]
fn default_class_is_fighter() {
    assert_eq!(CharacterClass::default(), CharacterClass::Fighter);
}

#[test]
fn default_character_is_blank() {
    let c = Character::default();
    assert_eq!(c.char_name, "");
    assert_eq!(c.char_class, None);
    assert_eq!(c.strength, 0);
    assert_eq!(c.strength_percentile, None);
    assert_eq!(c.dexterity, None);
    assert_eq!(c.constitution, None);
    assert_eq!(c.intelligence, None);
    assert_eq!(c.wisdom, None);
    assert_eq!(c.charisma, None);
}

#[test]
fn error_messages_render_their_values() {
    assert_eq!(
        CharError::StrParseError.message(),
        "strength is not an integer"
    );
    assert_eq!(
        CharError::PercentParseError.message(),
        "strength percentile is not an integer"
    );
    assert_eq!(
        CharError::InvalidStrength(-3).message(),
        "invalid strength:-3"
    );
    assert_eq!(
        CharError::InvalidStrength(26).message(),
        "invalid strength:26"
    );
    assert_eq!(
        CharError::InvalidPercentile(Some(101)).message(),
        "invalid strength percentile:101"
    );
    assert_eq!(
        CharError::InvalidPercentile(None).message(),
        "invalid strength percentile:none"
    );
    assert_eq!(
        CharError::CharacterClassParseError("Elf".to_string()).message(),
        "invalid class:Elf"
    );
}
