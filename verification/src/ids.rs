//! Plain identifiers that stand for the ledger's addresses, symbols and code hashes.
use vstd::prelude::*;

verus! {

/// An account or contract address, identified by a number.
pub type AccountId = u64;

/// A short symbol (a payout context or a currency code), identified by a number.
pub type SymbolId = u64;

/// The 32-byte hash of an uploaded contract code.
pub type WasmHash = [u8; 32];

/// Delay between proposing and executing a code upgrade: 48 hours, in seconds.
pub const TIMELOCK_PERIOD: u64 = 48 * 60 * 60;

/// Version number placed first in every event payload.
pub const EVENT_VERSION: u32 = 1;

} // verus!
