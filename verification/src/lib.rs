//! One-shot host telemetry: which disk a run reports, what it reports of it,
//! and the order in which a run does its work.
//!
//! A run of the collector connects to a database, samples the names of the
//! host and the capacity of one disk, and writes a single row. This crate
//! holds the decisions of such a run and proves them against their contracts:
//!
//! - [`config`]: what the environment must hold to connect;
//! - [`system`]: the names of the host, empty where they are not known;
//! - [`disk`]: the scan that picks the disk, and its capacity in bytes;
//! - [`host`]: the same scan on the disk list of `sysinfo`;
//! - [`record`]: the statement and the order of the values of the row;
//! - [`run`]: what a run does next after each piece of work;
//! - [`text`]: substring search.
//!
//! Reading the environment, asking the operating system, dividing bytes into
//! gibibytes and talking to the database are left to the caller.

pub mod config;
pub mod disk;
pub mod host;
pub mod record;
pub mod run;
pub mod system;
pub mod text;
