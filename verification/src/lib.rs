//! Session-configuration and durability layer for an embedded storage
//! engine: a validating configuration builder, a crash-safe persisted
//! configuration record with a trailing checksum, reconciliation of a
//! requested configuration against the record a prior run left on disk,
//! and a set-once global error register shared by all configuration
//! handles.
use vstd::prelude::*;

pub mod builder;
pub mod checksum;
pub mod config;
pub mod error;
pub mod mode;
pub mod pipeline;
pub mod register;
pub mod scan;
pub mod snapshot;
pub mod storage_parameters;
pub mod textnum;

verus! {

/// Major and minor version of this crate's persisted-record schema.
pub fn crate_version() -> (r: (usize, usize))
    ensures
        r == (0usize, 1usize),
{
    (0, 1)
}

} // verus!
