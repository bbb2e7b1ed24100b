//! The service around the store: its settings and the shorten workflow.

use std::path::PathBuf;

use vstd::prelude::*;

use crate::base62::encode_spec;
use crate::error::BrefError;
use crate::key::Key;
use crate::store::Store;

verus! {

/// Makes a key for the current second and stores `url` under it.
pub fn shorten(store: &Store, url: &str) -> (r: Result<Key, BrefError>)
    ensures
        r matches Ok(k) ==> exists|secs: u64| k@ == encode_spec(secs as nat),
{
    match Key::gen() {
        Ok(key) => match store.insert(&key, url) {
            Ok(()) => Ok(key),
            Err(e) => Err(e),
        },
        Err(e) => Err(e),
    }
}

/// Makes the key for second `secs` and stores `url` under it.
pub fn shorten_at(store: &Store, url: &str, secs: u64) -> (r: Result<Key, BrefError>)
    ensures
        r matches Ok(k) ==> k@ == encode_spec(secs as nat),
        r matches Err(e) ==> e is Storage,
{
    let key = Key::from_secs(secs);
    match store.insert(&key, url) {
        Ok(()) => Ok(key),
        Err(e) => Err(e),
    }
}

/// Settings of the HTTP service: the port to listen on and the database
/// directory.
pub struct Server {
    port: u16,
    db_path: PathBuf,
}

impl Server {
    pub closed spec fn spec_port(&self) -> u16 {
        self.port
    }

    pub closed spec fn spec_db_path(&self) -> PathBuf {
        self.db_path
    }

    /// Creates a server with the given options.
    pub fn new(port: u16, db_path: PathBuf) -> (r: Server)
        ensures
            r.spec_port() == port,
            r.spec_db_path() == db_path,
    {
        Server { port, db_path }
    }

    /// The port to listen on.
    pub fn port(&self) -> (r: u16)
        ensures
            r == self.spec_port(),
    {
        self.port
    }

    /// The database directory.
    pub fn db_path(&self) -> (r: &PathBuf)
        ensures
            *r == self.spec_db_path(),
    {
        &self.db_path
    }
}

} // verus!
