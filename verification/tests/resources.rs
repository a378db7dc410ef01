use bb_core::resources::{get, read, register, str_equal, ResourceStore};

static SET_A: [(&str, &str); 3] = [
    ("bosses.json", "[{\"name\":\"Gascoigne\"}]"),
    ("weapons.json", "[]"),
    ("bosses.json", "shadowed"),
];

static SET_B: [(&str, &str); 1] = [("bosses.json", "other")];

#[test]
fn empty_store_finds_nothing() {
    let store = ResourceStore::new();
    assert_eq!(get(&store, "bosses.json"), None);
    assert_eq!(read(&store, "bosses.json"), None);
}

#[test]
fn registered_entry_is_found() {
    let mut store = ResourceStore::new();
    register(&mut store, &SET_A);
    assert_eq!(get(&store, "weapons.json"), Some("[]"));
    assert_eq!(read(&store, "weapons.json"), Some(String::from("[]")));
}

#[test]
fn first_entry_with_a_name_wins() {
    let mut store = ResourceStore::new();
    register(&mut store, &SET_A);
    assert_eq!(get(&store, "bosses.json"), Some("[{\"name\":\"Gascoigne\"}]"));
}

#[test]
fn unknown_name_falls_through() {
    let mut store = ResourceStore::new();
    register(&mut store, &SET_A);
    assert_eq!(get(&store, "armors.json"), None);
    assert_eq!(get(&store, "bosses.jso"), None);
    assert_eq!(get(&store, ""), None);
    assert_eq!(read(&store, "items.json"), None);
}

#[test]
fn second_registration_is_ignored() {
    let mut store = ResourceStore::new();
    register(&mut store, &SET_A);
    register(&mut store, &SET_B);
    assert_eq!(get(&store, "bosses.json"), Some("[{\"name\":\"Gascoigne\"}]"));
    assert_eq!(get(&store, "weapons.json"), Some("[]"));
}

#[test]
fn registration_of_an_empty_set_still_counts() {
    static EMPTY: [(&str, &str); 0] = [];
    let mut store = ResourceStore::new();
    register(&mut store, &EMPTY);
    register(&mut store, &SET_B);
    assert_eq!(get(&store, "bosses.json"), None);
}

#[test]
fn string_equality_by_bytes() {
    assert!(str_equal("abc", "abc"));
    assert!(str_equal("", ""));
    assert!(!str_equal("abc", "abd"));
    assert!(!str_equal("abc", "ab"));
    assert!(str_equal("Ludwig ü", "Ludwig ü"));
    assert!(!str_equal("ü", "u"));
}
