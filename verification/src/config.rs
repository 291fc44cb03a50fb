//! The configuration surface that the components consume.

use vstd::prelude::*;

verus! {

/// The whole configuration.
pub struct Settings {
    pub keys: Keys,
    pub http: Http,
    pub mqtt: MQTT,
    pub cratedb: CrateDb,
    pub acls: Vec<ACLConf>,
}

/// The shared secret that bearer tokens are signed with.
pub struct Keys {
    pub secret: String,
}

/// The HTTP listener.
pub struct Http {
    pub enable: bool,
    pub listen_address: String,
}

/// The message-bus broker.
pub struct MQTT {
    pub broker_address: String,
    pub username: String,
    pub password: String,
    pub verify_ca: bool,
    pub topics: Vec<String>,
}

/// The storage cluster, its statements, and how the consumer batches.
pub struct CrateDb {
    pub url: String,
    /// Rows that make a full batch.
    pub bulk_size: usize,
    pub create_statement: String,
    pub insert_statement: String,
    /// The table that rows and blobs go to.
    pub table_name: String,
    /// Seconds without an item after which a partial batch is flushed.
    pub idle_timeout_secs: u64,
}

/// One configured access-control entry.
pub struct ACLConf {
    pub name: String,
    pub roles: Vec<String>,
}

} // verus!
