//! Bref is a small URL shortener: it turns the current time into a short
//! base-62 key and keeps key-to-URL pairs in an embedded database.

pub mod base62;
pub mod error;
pub mod key;
pub mod server;
pub mod store;

use std::path::PathBuf;

use vstd::prelude::*;

pub use crate::base62::{decode, encode, ToBase62};
pub use crate::error::BrefError;
pub use crate::key::Key;
pub use crate::server::{shorten, shorten_at, Server};
pub use crate::store::Store;

verus! {

/// The settings the service starts with.
pub struct Bref {
    port: u16,
    db_path: PathBuf,
}

impl Bref {
    pub closed spec fn spec_port(&self) -> u16 {
        self.port
    }

    pub closed spec fn spec_db_path(&self) -> PathBuf {
        self.db_path
    }

    /// Settings for listening on `port` with the database in `db_path`.
    pub fn new(port: u16, db_path: PathBuf) -> (r: Bref)
        ensures
            r.spec_port() == port,
            r.spec_db_path() == db_path,
    {
        Bref { port, db_path }
    }

    /// The server that these settings describe.
    pub fn into_server(self) -> (r: Server)
        ensures
            r.spec_port() == self.spec_port(),
            r.spec_db_path() == self.spec_db_path(),
    {
        Server::new(self.port, self.db_path)
    }
}

} // verus!
