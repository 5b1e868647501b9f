//! Limits of the API that the library enforces.

use vstd::prelude::*;

verus! {

/// Largest number of accounts that one page of the account list holds.
pub const LIST_ACCOUNT_MAXIMUM: u32 = 250;

/// Largest number of candles that one request returns.
pub const CANDLE_MAXIMUM: u32 = 350;

/// Granularity, in seconds, of the candles that the streaming API sends.
pub const WEBSOCKET_CANDLE_SECONDS: u64 = 300;

} // verus!
