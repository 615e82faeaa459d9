//! Parsers for the output of the commands that the tool runs on a host.
pub mod cargo_progress;
pub mod disk;
pub mod dladm;
pub mod network;
pub mod omicron_pkg_log;
pub mod pkg_progress;
pub mod services;
pub mod xtask_download;
pub mod zones;
pub mod zpool;

use vstd::prelude::*;

verus! {

/// A field of command output that does not hold what it should.
#[derive(Debug)]
pub enum ParseError {
    /// The named field does not hold a number.
    BadNumber { field: String, value: String },
}

} // verus!
