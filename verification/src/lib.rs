//! Verified core of a bridge from an Ecowitt-compatible weather station to a
//! time-series database: the inbound telemetry field set is validated and
//! decoded, every imperial reading is normalized to its metric unit, and the
//! result is assembled into the fixed set of named time-series points.
//!
//! The core carries no floating point: readings travel as finite decimal
//! numerals, and each metric value is the pair of a reading and its unit
//! conversion. The embedding application evaluates the conversions in
//! IEEE-754 double precision at the write boundary, performs the HTTP and
//! database I/O, and loads the configuration.

pub mod config;
pub mod decode;
pub mod ingest;
pub mod metric;
pub mod numerals;
pub mod points;
