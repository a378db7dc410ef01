use bb_core::json::{parse_json, parse_json_member};

#[test]
fn valid_json_parses() {
    let v = parse_json("upgrades", "{\"gemEffects\": [1, 2], \"runeEffects\": []}").unwrap();
    assert_eq!(v["gemEffects"][1], 2);
    assert!(v["runeEffects"].is_array());
}

#[test]
fn invalid_json_is_reported_with_the_table_name() {
    let expected = serde_json::from_str::<serde_json::Value>("[1,").unwrap_err().to_string();
    assert_eq!(parse_json("weapons", "[1,"), Err(format!("weapons: {}", expected)));
    assert_eq!(
        parse_json("weapons", "[1,").unwrap_err(),
        "weapons: EOF while parsing a value at line 1 column 3"
    );
}

#[test]
fn empty_text_is_not_json() {
    assert_eq!(
        parse_json("items", "").unwrap_err(),
        "items: EOF while parsing a value at line 1 column 0"
    );
}

#[test]
fn table_member_is_selected() {
    let raw = "{\"gemEffects\": [1, 2], \"runeEffects\": [3]}";
    assert_eq!(parse_json_member("upgrades", raw, "runeEffects").unwrap(), serde_json::Value::from(vec![3]));
    assert_eq!(parse_json_member("upgrades", raw, "gemEffects").unwrap()[0], 1);
    assert!(parse_json_member("upgrades", raw, "none").unwrap().is_null());
    assert_eq!(
        parse_json_member("upgrades", "{", "gemEffects").unwrap_err(),
        "upgrades: EOF while parsing an object at line 1 column 1"
    );
}
