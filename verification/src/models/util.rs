//! # Coinbase Advanced Util API
//!
//! The current time of the API.

use vstd::prelude::*;

verus! {

/// Get the current time from the Coinbase Advanced API.
#[derive(Debug, Clone)]
pub struct UnixTime {
    /// An ISO-8601 representation of the timestamp.
    pub iso: String,
    /// A second-precision representation of the timestamp.
    pub epoch_seconds: u64,
    /// A millisecond-precision representation of the timestamp.
    pub epoch_millis: u64,
}

} // verus!
