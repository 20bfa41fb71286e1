//! Tests of the JSON snapshot: its exact flat shape and its escaping.

use character_sheet::character_model::{Character, In};
use serde_json::Value;

#[test]
fn default_snapshot_has_the_flat_shape() {
    let c = Character::default();
    let js = c.to_json_string().expect("snapshot is always present");
    assert_eq!(
        js,
        "{\"char_name\":\"\",\"char_class\":null,\"str\":0,\"str_percentile\":null,\
         \"dex\":null,\"con\":null,\"int\":null,\"wis\":null,\"cha\":null}"
    );
}

#[test]
fn snapshot_reflects_committed_values() {
    let mut c = Character::default();
    c.update(&In::CharName("Tordek".to_string()));
    c.update(&In::CharClass("Fighter".to_string()));
    c.update(&In::Str("18".to_string()));
    c.update(&In::StrPercentile("76".to_string()));
    c.update(&In::Dex("12".to_string()));
    c.update(&In::Int("-3".to_string()));
    let js = c.to_json_string().unwrap();
    assert_eq!(
        js,
        "{\"char_name\":\"Tordek\",\"char_class\":\"Fighter\",\"str\":18,\
         \"str_percentile\":76,\"dex\":12,\"con\":null,\"int\":-3,\"wis\":null,\"cha\":null}"
    );
}

#[test]
fn snapshot_escapes_the_name() {
    let mut c = Character::default();
    c.update(&In::CharName("a\"b\\c\nd".to_string()));
    let js = c.to_json_string().unwrap();
    assert_eq!(
        js,
        "{\"char_name\":\"a\\\"b\\\\c\\nd\",\"char_class\":null,\"str\":0,\
         \"str_percentile\":null,\"dex\":null,\"con\":null,\"int\":null,\"wis\":null,\"cha\":null}"
    );
}

#[test]
fn snapshot_parses_as_json_with_expected_fields() {
    let mut c = Character::default();
    c.update(&In::CharName("Mialee the wise".to_string()));
    c.update(&In::CharClass("Wizard".to_string()));
    c.update(&In::Str("9".to_string()));
    c.update(&In::Wis("17".to_string()));
    let js = c.to_json_string().unwrap();
    let v: Value = serde_json::from_str(&js).expect("snapshot is valid JSON");
    assert_eq!(v["char_name"], Value::String("Mialee the wise".to_string()));
    assert_eq!(v["char_class"], Value::String("Wizard".to_string()));
    assert_eq!(v["str"], Value::from(9));
    assert_eq!(v["str_percentile"], Value::Null);
    assert_eq!(v["wis"], Value::from(17));
    assert_eq!(v["dex"], Value::Null);
}

#[test]
fn snapshot_keeps_out_of_range_percentile_visible() {
    let mut c = Character::default();
    c.update(&In::Str("18".to_string()));
    c.update(&In::StrPercentile("101".to_string()));
    let js = c.to_json_string().unwrap();
    let v: Value = serde_json::from_str(&js).unwrap();
    assert_eq!(v["str_percentile"], Value::from(101));
}

#[test]
fn snapshot_renders_extreme_integers() {
    let mut c = Character::default();
    c.update(&In::Dex("-2147483648".to_string()));
    c.update(&In::Cha("2147483647".to_string()));
    let js = c.to_json_string().unwrap();
    let v: Value = serde_json::from_str(&js).unwrap();
    assert_eq!(v["dex"], Value::from(i32::MIN));
    assert_eq!(v["cha"], Value::from(i32::MAX));
}
