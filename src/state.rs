use vstd::prelude::*;
use vstd::utf8::encode_utf8;
use crate::pubkey::Pubkey;
use crate::{MAX_ROOM_ID_LEN, MIN_WAGER_LAMPORTS};

verus! {

/// Where a wager stands in its lifecycle.
#[derive(Clone, Copy, Debug, PartialEq, Eq, Structural)]
pub enum WagerState {
    WaitingForPlayer2,
    Active,
    Completed,
    Cancelled,
}

/// The program's own failures.
#[derive(Clone, Copy, Debug, PartialEq, Eq, Structural)]
pub enum CodeBattleError {
    InvalidState,
    SamePlayer,
    InvalidWinner,
    AmountTooSmall,
    RoomIdTooLong,
    Unauthorized,
}

/// Every way an instruction can be rejected: the program's own errors, and
/// those that the ledger raises while it loads accounts and moves lamports.
#[derive(Clone, Copy, Debug, PartialEq, Eq, Structural)]
pub enum WagerError {
    Program(CodeBattleError),
    /// A required signature is missing.
    MissingSigner,
    /// An account already lives at the wager's address.
    AddressInUse,
    /// No wager account lives at the address.
    RecordNotFound,
    /// A balance would exceed `u64::MAX`.
    ArithmeticOverflow,
}

/// The persisted wager record.
#[derive(Clone, Debug)]
pub struct WagerEscrow {
    pub room_id: String,
    pub player1: Pubkey,
    pub player2: Pubkey,
    pub amount: u64,
    pub state: WagerState,
    pub authority: Pubkey,
    pub bump: u8,
}

impl WagerEscrow {
    /// Bytes of storage that a record takes: discriminator, length-prefixed
    /// room id, two player keys, stake, state, authority and bump.
    pub const LEN: usize = 8 + 40 + 32 + 32 + 8 + 1 + 32 + 1;
}

/// The UTF-8 bytes of a room identifier.
pub open spec fn room_id_bytes(room_id: Seq<char>) -> Seq<u8> {
    encode_utf8(room_id)
}

/// A wager record together with its address and the lamports held there.
#[derive(Clone, Debug)]
pub struct WagerAccount {
    pub key: Pubkey,
    pub escrow: WagerEscrow,
    pub lamports: u64,
}

impl WagerAccount {
    /// The custody invariant: the account holds one stake per player that has
    /// deposited, and the record meets the limits that creation enforces.
    pub open spec fn wf(&self) -> bool {
        &&& room_id_bytes(self.escrow.room_id@).len() <= MAX_ROOM_ID_LEN
        &&& self.escrow.amount >= MIN_WAGER_LAMPORTS
        &&& self.escrow.state == WagerState::WaitingForPlayer2 ==> self.lamports == self.escrow.amount
        &&& self.escrow.state == WagerState::Active ==> self.lamports == 2 * self.escrow.amount
    }

    /// Checks the custody invariant, for an account that was loaded from outside.
    pub fn is_well_formed(&self) -> (r: bool)
        ensures
            r == self.wf(),
    {
        let len = self.escrow.room_id.as_str().as_bytes().len();
        if len > MAX_ROOM_ID_LEN || self.escrow.amount < MIN_WAGER_LAMPORTS {
            return false;
        }
        match self.escrow.state {
            WagerState::WaitingForPlayer2 => self.lamports == self.escrow.amount,
            WagerState::Active => self.escrow.amount <= u64::MAX / 2 && self.lamports
                == 2 * self.escrow.amount,
            _ => true,
        }
    }
}

/// A movement of lamports that the ledger is to carry out.
#[derive(Clone, Copy, Debug)]
pub struct Transfer {
    pub from: Pubkey,
    pub to: Pubkey,
    pub amount: u64,
}

/// Emitted when player 1 opens a wager.
#[derive(Clone, Debug)]
pub struct WagerCreated {
    pub room_id: String,
    pub player1: Pubkey,
    pub amount: u64,
}

/// Emitted when player 2 joins a wager.
#[derive(Clone, Debug)]
pub struct WagerJoined {
    pub room_id: String,
    pub player2: Pubkey,
}

/// Emitted when the authority settles a wager.
#[derive(Clone, Debug)]
pub struct WinnerDeclared {
    pub room_id: String,
    pub winner: Pubkey,
    pub payout: u64,
}

/// Emitted when the authority cancels a wager.
#[derive(Clone, Debug)]
pub struct WagerCancelled {
    pub room_id: String,
}

} // verus!
