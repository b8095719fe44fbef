use vstd::prelude::*;

pub mod pubkey;
pub mod fees;
pub mod state;
pub mod instructions;
pub mod address;
pub mod laws;

verus! {

/// The smallest stake, in lamports, that a wager accepts.
pub const MIN_WAGER_LAMPORTS: u64 = 1_000_000;

/// The platform's cut of a settled pot, in basis points.
pub const PLATFORM_FEE_BPS: u64 = 500;

/// The longest room identifier, in bytes, that a wager record can hold.
pub const MAX_ROOM_ID_LEN: usize = 36;

} // verus!
