use openpanel_sdk::decimal::{i64_to_decimal, u64_to_decimal};
use openpanel_sdk::PropertyMap;

fn s(x: &str) -> String {
    x.to_string()
}

fn map_of(pairs: &[(&str, &str)]) -> PropertyMap {
    PropertyMap::from_entries(pairs.iter().map(|(k, v)| (s(k), s(v))).collect())
}

#[test]
fn insert_new_keys_keeps_order() {
    let mut m = PropertyMap::new();
    m.insert(s("b"), s("1"));
    m.insert(s("a"), s("2"));
    assert_eq!(m.len(), 2);
    assert_eq!(m.to_entries(), vec![(s("b"), s("1")), (s("a"), s("2"))]);
}

#[test]
fn insert_existing_key_replaces_in_place() {
    let mut m = map_of(&[("x", "1"), ("y", "2"), ("z", "3")]);
    m.insert(s("y"), s("9"));
    assert_eq!(m.to_entries(), vec![(s("x"), s("1")), (s("y"), s("9")), (s("z"), s("3"))]);
    assert_eq!(m.get(&s("y")), Some(&s("9")));
}

#[test]
fn get_and_contains_key() {
    let m = map_of(&[("name", "rust")]);
    assert!(m.contains_key(&s("name")));
    assert!(!m.contains_key(&s("Name")));
    assert_eq!(m.get(&s("name")), Some(&s("rust")));
    assert_eq!(m.get(&s("other")), None);
}

#[test]
fn from_entries_later_value_wins() {
    let m = map_of(&[("k", "first"), ("j", "x"), ("k", "second")]);
    assert_eq!(m.len(), 2);
    assert_eq!(m.get(&s("k")), Some(&s("second")));
    assert_eq!(m.to_entries(), vec![(s("k"), s("second")), (s("j"), s("x"))]);
}

#[test]
fn extend_prefers_other() {
    let mut m = map_of(&[("a", "1"), ("b", "2")]);
    let other = map_of(&[("b", "20"), ("c", "30")]);
    m.extend(&other);
    assert_eq!(m.to_entries(), vec![(s("a"), s("1")), (s("b"), s("20")), (s("c"), s("30"))]);
}

#[test]
fn duplicate_is_equal() {
    let m = map_of(&[("a", "1"), ("b", "2")]);
    let d = m.duplicate();
    assert_eq!(d.to_entries(), m.to_entries());
}

#[test]
fn decimal_text_of_integers() {
    assert_eq!(i64_to_decimal(0), "0");
    assert_eq!(i64_to_decimal(7), "7");
    assert_eq!(i64_to_decimal(100), "100");
    assert_eq!(i64_to_decimal(-42), "-42");
    assert_eq!(i64_to_decimal(i64::MAX), i64::MAX.to_string());
    assert_eq!(i64_to_decimal(i64::MIN), i64::MIN.to_string());
    assert_eq!(u64_to_decimal(u64::MAX), u64::MAX.to_string());
    assert_eq!(u64_to_decimal(1234567890), "1234567890");
}

#[test]
fn entries_round_trip() {
    let m = map_of(&[("z", "1"), ("a", "2"), ("m", "3")]);
    let back = PropertyMap::from_entries(m.to_entries());
    assert_eq!(back.to_entries(), m.to_entries());
}
