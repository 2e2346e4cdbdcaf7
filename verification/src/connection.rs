//! The read-side service's view of the store connection: which bucket, scope
//! and collection its queries are addressed to. The live cluster handle is
//! owned by the surrounding process, which pairs it with the destination
//! selected here.

use vstd::prelude::*;

use crate::config::Settings;

verus! {

/// The destination a service instance addresses its queries to.
pub struct CouchbaseConnection {
    pub bucket_name: String,
    pub scope_name: String,
    pub collection_name: String,
}

impl CouchbaseConnection {
    /// Selects the regular destination from the settings.
    pub fn new(configuration: &Settings) -> (r: Self)
        ensures
            r.bucket_name@ == configuration.database.bucket_name@,
            r.scope_name@ == configuration.database.scope_name@,
            r.collection_name@ == configuration.database.collection_name@,
    {
        CouchbaseConnection {
            bucket_name: configuration.database.bucket_name.clone(),
            scope_name: configuration.database.scope_name.clone(),
            collection_name: configuration.database.collection_name.clone(),
        }
    }

    /// Selects the test destination from the settings.
    pub fn test_connection(configuration: &Settings) -> (r: Self)
        ensures
            r.bucket_name@ == configuration.database.test_bucket_name@,
            r.scope_name@ == configuration.database.test_scope_name@,
            r.collection_name@ == configuration.database.test_collection_name@,
    {
        CouchbaseConnection {
            bucket_name: configuration.database.test_bucket_name.clone(),
            scope_name: configuration.database.test_scope_name.clone(),
            collection_name: configuration.database.test_collection_name.clone(),
        }
    }
}

} // verus!
