use std::collections::hash_map::DefaultHasher;
use std::hash::{Hash, Hasher};

use bref::{encode, Key};

#[test]
fn key_from_secs_decodes_back() {
    let k = Key::from_secs(1000);
    assert_eq!(k.as_str(), "G8");
    assert_eq!(k.value(), Some(1000));
}

#[test]
fn keys_in_one_second_are_equal() {
    let a = Key::from_secs(1_700_000_000);
    let b = Key::from_secs(1_700_000_000);
    assert!(a == b);
}

#[test]
fn keys_in_later_seconds_differ_and_grow() {
    let a = Key::from_secs(1_700_000_000);
    let b = Key::from_secs(1_700_000_001);
    assert!(a != b);
    assert!(b.value().unwrap() > a.value().unwrap());
}

#[test]
fn key_gen_reads_the_clock() {
    let k = Key::gen().unwrap();
    assert_eq!(k.as_str().len(), 6);
    assert!(k.value().unwrap() > 1_600_000_000);
}

#[test]
fn key_from_content_matches_std_hash() {
    let mut hasher = DefaultHasher::new();
    "https://example.com".hash(&mut hasher);
    let expected = encode(hasher.finish());
    let k = Key::from_content("https://example.com");
    assert_eq!(k.as_str(), expected);
    assert!(Key::from_content("https://example.com") == k);
    assert!(Key::from_content("https://example.org") != k);
}

#[test]
fn key_parse_accepts_alphabet_only() {
    assert_eq!(Key::parse("aZ09").unwrap().as_str(), "aZ09");
    assert!(Key::parse("a b").is_none());
    assert!(Key::parse("a/b").is_none());
    assert_eq!(Key::parse("").unwrap().as_str(), "");
}

#[test]
fn key_bytes_are_its_text() {
    let k = Key::from_secs(3843);
    assert_eq!(k.as_bytes(), b"zz");
    let r: &[u8] = k.as_ref();
    assert_eq!(r, b"zz");
    assert_eq!(k.clone().as_str(), "zz");
}
