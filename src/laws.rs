use vstd::prelude::*;
use crate::fees::{fee_of, payout_of, pot_of};
use crate::instructions::{
    cancel_error, cancel_transfers, initialize_error, join_error, joined, settle_error,
    settle_transfers, CancelWager, DeclareWinner, InitializeWager, JoinWager,
};
use crate::pubkey::{default_key, Pubkey};
use crate::state::{
    room_id_bytes, CodeBattleError, Transfer, WagerAccount, WagerError, WagerState,
};
use crate::{MAX_ROOM_ID_LEN, MIN_WAGER_LAMPORTS};

verus! {

/// A signed request to open a wager at an empty address, with a stake of at
/// least the minimum and a room id of at most 36 bytes, succeeds.
pub proof fn lemma_initialize_accepts_valid(
    ctx: InitializeWager,
    room_id: Seq<char>,
    amount: u64,
)
    requires
        ctx.player1_signed,
        amount >= MIN_WAGER_LAMPORTS,
        room_id_bytes(room_id).len() <= MAX_ROOM_ID_LEN,
    ensures
        initialize_error(ctx, None, room_id, amount) is None,
{
}

/// A stake under the minimum or a room id over 36 bytes is always refused.
pub proof fn lemma_initialize_rejects_invalid(
    ctx: InitializeWager,
    slot: Option<WagerAccount>,
    room_id: Seq<char>,
    amount: u64,
)
    requires
        amount < MIN_WAGER_LAMPORTS || room_id_bytes(room_id).len() > MAX_ROOM_ID_LEN,
    ensures
        initialize_error(ctx, slot, room_id, amount) is Some,
{
}

/// Joining a well-formed wager fails with `InvalidState` unless it waits for
/// player 2, fails with `SamePlayer` when player 1 tries it, and otherwise
/// succeeds unless the doubled stake does not fit in a `u64`; on success the
/// wager is active and holds twice the stake.
pub proof fn lemma_join_outcomes(ctx: JoinWager, a: WagerAccount)
    requires
        ctx.player2_signed,
        a.wf(),
    ensures
        a.escrow.state != WagerState::WaitingForPlayer2 ==> join_error(ctx, Some(a)) == Some(
            WagerError::Program(CodeBattleError::InvalidState),
        ),
        a.escrow.state == WagerState::WaitingForPlayer2 && ctx.player2@ == a.escrow.player1@
            ==> join_error(ctx, Some(a)) == Some(WagerError::Program(CodeBattleError::SamePlayer)),
        a.escrow.state == WagerState::WaitingForPlayer2 && ctx.player2@ != a.escrow.player1@ && 2
            * a.escrow.amount <= u64::MAX ==> join_error(ctx, Some(a)) is None,
        join_error(ctx, Some(a)) is None ==> joined(a, ctx).escrow.state == WagerState::Active
            && joined(a, ctx).lamports == 2 * a.escrow.amount && joined(a, ctx).wf(),
{
}

/// Settling a well-formed wager needs an active wager and a winner who is one
/// of its players; the winner then gets the pot less the rounded-down fee, and
/// payout and fee together are exactly the pot.
pub proof fn lemma_settle_conserves_pot(ctx: DeclareWinner, a: WagerAccount, winner: Pubkey)
    requires
        a.wf(),
    ensures
        settle_error(ctx, Some(a), winner) is None ==> a.escrow.state == WagerState::Active && (
        winner@ == a.escrow.player1@ || winner@ == a.escrow.player2@),
        settle_error(ctx, Some(a), winner) is None ==> ({
            let t = settle_transfers(a, winner);
            &&& t[0].to == winner
            &&& t[0].amount == 2 * a.escrow.amount - (2 * a.escrow.amount * 500) / 10000
            &&& t[1].to == a.escrow.authority
            &&& t[1].amount == fee_of(a.escrow.amount as nat)
            &&& t[0].amount + t[1].amount == 2 * a.escrow.amount
        }),
{
    let n = a.escrow.amount as nat;
    assert(pot_of(n) * 500 / 10000 <= pot_of(n)) by (nonlinear_arith);
    assert(payout_of(n) + fee_of(n) == pot_of(n));
}

/// Cancelling a waiting wager gives player 1 back the stake and player 2
/// nothing; cancelling an active one gives each player the stake back. Either
/// way nothing is left for the authority.
pub proof fn lemma_cancel_refunds(ctx: CancelWager, a: WagerAccount)
    requires
        a.wf(),
        cancel_error(ctx, Some(a)) is None,
    ensures
        a.escrow.state == WagerState::WaitingForPlayer2 ==> ({
            let t = cancel_transfers(a);
            &&& t.len() == 2
            &&& t[0].to == a.escrow.player1 && t[0].amount == a.escrow.amount
            &&& t[1].to == a.escrow.authority && t[1].amount == 0
        }),
        a.escrow.state == WagerState::Active && a.escrow.player2@ != default_key() ==> ({
            let t = cancel_transfers(a);
            &&& t.len() == 3
            &&& t[0].to == a.escrow.player1 && t[0].amount == a.escrow.amount
            &&& t[1].to == a.escrow.player2 && t[1].amount == a.escrow.amount
            &&& t[2].to == a.escrow.authority && t[2].amount == 0
        }),
{
}

/// Settling and cancelling close the record, and a closed record takes no
/// further instruction: each fails, with `RecordNotFound` once it is signed.
pub proof fn lemma_closed_record_is_final(
    join: JoinWager,
    settle: DeclareWinner,
    winner: Pubkey,
    cancel: CancelWager,
)
    ensures
        join_error(join, None) is Some,
        settle_error(settle, None, winner) is Some,
        cancel_error(cancel, None) is Some,
        join.player2_signed ==> join_error(join, None) == Some(WagerError::RecordNotFound),
        settle.authority_signed ==> settle_error(settle, None, winner) == Some(
            WagerError::RecordNotFound,
        ),
        cancel.authority_signed ==> cancel_error(cancel, None) == Some(WagerError::RecordNotFound),
{
}

/// The edges of the wager lifecycle: waiting to active, waiting or active to
/// cancelled, active to completed.
pub open spec fn lifecycle_edge(from: WagerState, to: WagerState) -> bool {
    ||| from == WagerState::WaitingForPlayer2 && to == WagerState::Active
    ||| from == WagerState::WaitingForPlayer2 && to == WagerState::Cancelled
    ||| from == WagerState::Active && to == WagerState::Completed
    ||| from == WagerState::Active && to == WagerState::Cancelled
}

/// The sum of the amounts of a list of transfers.
pub open spec fn total_moved(t: Seq<Transfer>) -> int
    decreases t.len(),
{
    if t.len() == 0 {
        0
    } else {
        total_moved(t.drop_last()) + t.last().amount
    }
}

/// Every successful instruction on a record follows an edge of the lifecycle:
/// joining makes a waiting wager active, settling completes an active one, and
/// cancelling ends a waiting or active one.
pub proof fn lemma_transitions_follow_lifecycle(
    a: WagerAccount,
    join: JoinWager,
    settle: DeclareWinner,
    winner: Pubkey,
    cancel: CancelWager,
)
    ensures
        join_error(join, Some(a)) is None ==> lifecycle_edge(a.escrow.state, joined(a, join).escrow.state),
        settle_error(settle, Some(a), winner) is None ==> lifecycle_edge(
            a.escrow.state,
            WagerState::Completed,
        ),
        cancel_error(cancel, Some(a)) is None ==> lifecycle_edge(
            a.escrow.state,
            WagerState::Cancelled,
        ),
{
}

/// Closing a well-formed record, by settling or cancelling, moves out exactly
/// the lamports held in custody: none are created and none stay behind.
pub proof fn lemma_closing_empties_custody(
    a: WagerAccount,
    settle: DeclareWinner,
    winner: Pubkey,
    cancel: CancelWager,
)
    requires
        a.wf(),
    ensures
        settle_error(settle, Some(a), winner) is None ==> total_moved(settle_transfers(a, winner))
            == a.lamports,
        cancel_error(cancel, Some(a)) is None ==> total_moved(cancel_transfers(a)) == a.lamports,
{
    let n = a.escrow.amount as nat;
    assert(pot_of(n) * 500 / 10000 <= pot_of(n)) by (nonlinear_arith);
    reveal_with_fuel(total_moved, 4);
}

} // verus!
