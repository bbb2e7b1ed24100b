//! Durable key-to-URL storage on an embedded sled database.

use std::path::PathBuf;

use vstd::prelude::*;
use vstd::utf8::{decode_utf8, encode_utf8, valid_utf8};

use crate::error::BrefError;
use crate::key::Key;

verus! {

#[verifier::external_type_specification]
#[verifier::external_body]
pub struct ExPathBuf(PathBuf);

#[verifier::external_type_specification]
#[verifier::external_body]
pub struct ExDb(sled::Db);

/// Relies on `sled::Db`'s `Clone`: another handle to the same database.
pub assume_specification[ <sled::Db as std::clone::Clone>::clone ](db: &sled::Db) -> sled::Db;

/// The text that `String::from_utf8_lossy` reads from some bytes.
pub uninterp spec fn utf8_lossy_of(bytes: Seq<u8>) -> Seq<char>;

/// Relies on `sled::open`: opens the database directory at `path`, creating
/// it when missing.
#[verifier::external_body]
fn open_db(path: &PathBuf) -> (r: Result<sled::Db, sled::Error>) {
    sled::open(path)
}

/// Relies on `sled::Tree::insert`: sets `key` to `value`, replacing any
/// earlier value; the previous value is dropped.
#[verifier::external_body]
fn db_insert(db: &sled::Db, key: &[u8], value: &[u8]) -> (r: Result<(), sled::Error>) {
    db.insert(key, value).map(|_previous| ())
}

/// Relies on `sled::Tree::get`: the value stored under `key`, if any.
#[verifier::external_body]
fn db_get(db: &sled::Db, key: &[u8]) -> (r: Result<Option<Vec<u8>>, sled::Error>) {
    db.get(key).map(|found| found.map(|v| v.to_vec()))
}

/// Relies on `String::from_utf8_lossy`: valid UTF-8 is decoded as it is;
/// invalid sequences become U+FFFD.
#[verifier::external_body]
fn text_from_utf8_lossy(bytes: &[u8]) -> (r: String)
    ensures
        r@ == utf8_lossy_of(bytes@),
        valid_utf8(bytes@) ==> r@ == decode_utf8(bytes@),
{
    String::from_utf8_lossy(bytes).into_owned()
}

/// The URL held in a stored value, if the key was found: the value's bytes
/// read as UTF-8, with invalid sequences replaced.
pub fn url_from_stored(found: Option<Vec<u8>>) -> (r: Option<String>)
    ensures
        found is None ==> r is None,
        found matches Some(bytes) ==> (r matches Some(url) && url@ == utf8_lossy_of(bytes@)),
        found matches Some(bytes) ==> (valid_utf8(bytes@) ==> r->Some_0@ == decode_utf8(bytes@)),
{
    match found {
        None => None,
        Some(bytes) => Some(text_from_utf8_lossy(bytes.as_slice())),
    }
}

/// The bytes that `Store::insert` writes for a URL read back as that URL.
pub proof fn law_stored_url_reads_back(url: Seq<char>)
    ensures
        valid_utf8(encode_utf8(url)),
        decode_utf8(encode_utf8(url)) == url,
{
    vstd::utf8::encode_utf8_valid_utf8(url);
    vstd::utf8::encode_utf8_decode_utf8(url);
}

/// Stores key-URL pairs in an embedded database. Clones share one database.
pub struct Store {
    db: sled::Db,
}

impl Clone for Store {
    fn clone(&self) -> (r: Store) {
        Store { db: self.db.clone() }
    }
}

impl Store {
    /// Opens the store in the directory `path`, creating it when missing.
    pub fn new(path: &PathBuf) -> (r: Result<Store, BrefError>)
        ensures
            r matches Err(e) ==> e is Storage,
    {
        match open_db(path) {
            Ok(db) => Ok(Store { db }),
            Err(e) => Err(BrefError::Storage(e)),
        }
    }

    /// Sets `key` to `url`, replacing an earlier URL of that key. The key is
    /// stored as its UTF-8 bytes, and so is the URL.
    ///
    /// Durability is relaxed: the write is not flushed before this returns.
    /// sled writes it to disk in the background, within its flush interval
    /// (500 ms by default), so a crash right after a successful insert may
    /// lose it.
    pub fn insert(&self, key: &Key, url: &str) -> (r: Result<(), BrefError>)
        ensures
            r matches Err(e) ==> e is Storage,
    {
        let key_bytes = key.as_bytes();
        let url_bytes = url.as_bytes();
        match db_insert(&self.db, key_bytes, url_bytes) {
            Ok(()) => Ok(()),
            Err(e) => Err(BrefError::Storage(e)),
        }
    }

    /// The URL stored under `key`: `Ok(None)` when there is none, which is
    /// no error.
    pub fn get(&self, key: &Key) -> (r: Result<Option<String>, BrefError>)
        ensures
            r matches Err(e) ==> e is Storage,
    {
        match db_get(&self.db, key.as_bytes()) {
            Ok(found) => Ok(url_from_stored(found)),
            Err(e) => Err(BrefError::Storage(e)),
        }
    }
}

} // verus!
