//! The configuration surface the pipeline consumes. It is read from the
//! outside at process start and only carried here; the pipeline honours the
//! values as given.

use vstd::prelude::*;
use vstd::string::StringExecFns;

use crate::textfmt::{dec_digits, push_digits};

verus! {

/// Connection and destination settings for the store, including the separate
/// destination used by integration tests.
pub struct DatabaseSettings {
    pub username: String,
    pub password: String,
    pub port: u16,
    pub host: String,
    pub bucket_name: String,
    pub scope_name: String,
    pub collection_name: String,
    pub test_bucket_name: String,
    pub test_scope_name: String,
    pub test_collection_name: String,
}

/// Everything the process is configured with: the store settings and the
/// port the read-side service listens on.
pub struct Settings {
    pub database: DatabaseSettings,
    pub application_port: u16,
}

/// The store connection string for the given host and port.
pub open spec fn connection_string_of(host: Seq<char>, port: nat) -> Seq<char> {
    "couchbase://"@ + host + ":"@ + dec_digits(port)
}

impl DatabaseSettings {
    /// The store connection string: scheme, host and port.
    pub fn connection_string(&self) -> (r: String)
        ensures
            r@ == connection_string_of(self.host@, self.port as nat),
    {
        let mut s = String::new();
        s.append("couchbase://");
        s.append(self.host.as_str());
        s.append(":");
        push_digits(&mut s, self.port as u64);
        proof {
            assert(s@ =~= connection_string_of(self.host@, self.port as nat));
        }
        s
    }
}

} // verus!
