//! Process configuration as the core sees it: plain values, already loaded.
//! Reading and parsing the configuration file is the embedding application's
//! business.

use vstd::prelude::*;

verus! {

/// Connection settings for the time-series database.
#[derive(Debug, Clone, PartialEq, Eq)]
pub struct InfluxDb {
    pub host: String,
    pub org: String,
    pub token: String,
    pub bucket: String,
}

/// The process configuration: where to write, and where to listen.
#[derive(Debug, Clone, PartialEq, Eq)]
pub struct Config {
    pub influxdb: InfluxDb,
    pub listen_port: u16,
}

} // verus!
