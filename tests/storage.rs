use std::path::PathBuf;

use bref::store::url_from_stored;
use bref::{shorten, shorten_at, BrefError, Bref, Key, Server, Store};

fn open(name: &str) -> Store {
    Store::new(&PathBuf::from(format!("/tmp/bref-tests/{}", name))).unwrap()
}

#[test]
fn store_round_trip() {
    let store = open("round_trip");
    let k = Key::from_secs(1);
    store.insert(&k, "https://example.com").unwrap();
    assert_eq!(store.get(&k).unwrap(), Some("https://example.com".to_string()));
}

#[test]
fn store_missing_key_is_none() {
    let store = open("missing");
    let k = Key::parse("neverInserted").unwrap();
    assert_eq!(store.get(&k).unwrap(), None);
}

#[test]
fn store_last_write_wins() {
    let store = open("last_write");
    let k = Key::from_secs(2);
    store.insert(&k, "https://first.example").unwrap();
    store.insert(&k, "https://second.example").unwrap();
    assert_eq!(store.get(&k).unwrap(), Some("https://second.example".to_string()));
}

#[test]
fn store_concurrent_inserts() {
    let store = open("concurrent");
    let runtime = tokio::runtime::Runtime::new().unwrap();
    let callers: Vec<_> = (0..4u64)
        .map(|t| {
            let s = store.clone();
            runtime.spawn_blocking(move || {
                for i in 0..25u64 {
                    let n = 10_000 + t * 100 + i;
                    s.insert(&Key::from_secs(n), &format!("https://{}.example", n)).unwrap();
                }
            })
        })
        .collect();
    for c in callers {
        runtime.block_on(c).unwrap();
    }
    for t in 0..4u64 {
        for i in 0..25u64 {
            let n = 10_000 + t * 100 + i;
            let url = store.get(&Key::from_secs(n)).unwrap();
            assert_eq!(url, Some(format!("https://{}.example", n)));
        }
    }
}

#[test]
fn end_to_end_with_simulated_clock() {
    let store = open("end_to_end");
    let first = shorten_at(&store, "https://a.example", 1000).unwrap();
    assert_eq!(first.value(), Some(1000));
    assert_eq!(store.get(&first).unwrap(), Some("https://a.example".to_string()));
    let second = shorten_at(&store, "https://b.example", 1001).unwrap();
    assert!(first != second);
    assert_eq!(store.get(&second).unwrap(), Some("https://b.example".to_string()));
}

#[test]
fn shorten_with_clock() {
    let store = open("shorten");
    let k = shorten(&store, "https://now.example").unwrap();
    assert_eq!(store.get(&k).unwrap(), Some("https://now.example".to_string()));
}

#[test]
fn stored_bytes_read_as_text() {
    assert_eq!(url_from_stored(None), None);
    assert_eq!(
        url_from_stored(Some("https://é.example".as_bytes().to_vec())),
        Some("https://é.example".to_string())
    );
    assert_eq!(url_from_stored(Some(vec![0x61, 0xff, 0x62])), Some("a\u{FFFD}b".to_string()));
}

#[test]
fn store_open_fails_on_a_file_path() {
    let store = open("file_parent");
    drop(store);
    let r = Store::new(&PathBuf::from("/dev/null/bref"));
    assert!(matches!(r, Err(BrefError::Storage(_))));
}

#[test]
fn server_and_settings_keep_options() {
    let server = Server::new(8080, PathBuf::from("/tmp/bref-db"));
    assert_eq!(server.port(), 8080);
    assert_eq!(server.db_path(), &PathBuf::from("/tmp/bref-db"));
    let server = Bref::new(9000, PathBuf::from("/var/bref")).into_server();
    assert_eq!(server.port(), 9000);
    assert_eq!(server.db_path(), &PathBuf::from("/var/bref"));
}
