use vstd::prelude::*;
use crate::fees::{fee_of, payout_of, split_pot};
use crate::pubkey::{default_key, Pubkey};
use crate::state::{
    room_id_bytes, CodeBattleError, Transfer, WagerAccount, WagerCancelled, WagerCreated,
    WagerError, WagerEscrow, WagerJoined, WagerState, WinnerDeclared,
};
use crate::{MAX_ROOM_ID_LEN, MIN_WAGER_LAMPORTS};

verus! {

/// Accounts of the instruction that opens a wager.
#[derive(Clone, Copy, Debug)]
pub struct InitializeWager {
    /// The player who opens the wager and pays the first stake.
    pub player1: Pubkey,
    pub player1_signed: bool,
    /// The arbiter that may later settle or cancel.
    pub authority: Pubkey,
    /// The wager's derived address, and the bump that derived it.
    pub wager: Pubkey,
    pub bump: u8,
}

/// Accounts of the instruction by which a second player joins.
#[derive(Clone, Copy, Debug)]
pub struct JoinWager {
    pub player2: Pubkey,
    pub player2_signed: bool,
}

/// Accounts of the instruction that settles a wager.
#[derive(Clone, Copy, Debug)]
pub struct DeclareWinner {
    pub authority: Pubkey,
    pub authority_signed: bool,
}

/// Accounts of the instruction that cancels a wager.
#[derive(Clone, Copy, Debug)]
pub struct CancelWager {
    pub authority: Pubkey,
    pub authority_signed: bool,
}

/// The error with which opening a wager fails, if any.
pub open spec fn initialize_error(
    ctx: InitializeWager,
    slot: Option<WagerAccount>,
    room_id: Seq<char>,
    amount: u64,
) -> Option<WagerError> {
    if !ctx.player1_signed {
        Some(WagerError::MissingSigner)
    } else if slot is Some {
        Some(WagerError::AddressInUse)
    } else if amount < MIN_WAGER_LAMPORTS {
        Some(WagerError::Program(CodeBattleError::AmountTooSmall))
    } else if room_id_bytes(room_id).len() > MAX_ROOM_ID_LEN {
        Some(WagerError::Program(CodeBattleError::RoomIdTooLong))
    } else {
        None
    }
}

/// Opens a wager at an empty address: records player 1, the stake and the
/// authority, and moves player 1's stake into the wager's custody.
pub fn initialize_wager(
    ctx: &InitializeWager,
    slot: &mut Option<WagerAccount>,
    room_id: String,
    amount: u64,
) -> (r: Result<(Vec<Transfer>, WagerCreated), WagerError>)
    ensures
        r is Err <==> initialize_error(*ctx, *old(slot), room_id@, amount) is Some,
        r matches Err(e) ==> initialize_error(*ctx, *old(slot), room_id@, amount) == Some(e)
            && *final(slot) == *old(slot),
        r is Ok ==> (*final(slot) matches Some(a) && a.wf() && a.key == ctx.wager
            && a.lamports == amount && a.escrow.room_id == room_id
            && a.escrow.player1 == ctx.player1 && a.escrow.player2@ == default_key()
            && a.escrow.amount == amount && a.escrow.state == WagerState::WaitingForPlayer2
            && a.escrow.authority == ctx.authority && a.escrow.bump == ctx.bump),
        r matches Ok((t, ev)) ==> t@ == seq![(Transfer { from: ctx.player1, to: ctx.wager, amount })]
            && ev.room_id == room_id && ev.player1 == ctx.player1 && ev.amount == amount,
{
    if !ctx.player1_signed {
        return Err(WagerError::MissingSigner);
    }
    if slot.is_some() {
        return Err(WagerError::AddressInUse);
    }
    if amount < MIN_WAGER_LAMPORTS {
        return Err(WagerError::Program(CodeBattleError::AmountTooSmall));
    }
    if room_id.as_str().as_bytes().len() > MAX_ROOM_ID_LEN {
        return Err(WagerError::Program(CodeBattleError::RoomIdTooLong));
    }
    let event = WagerCreated { room_id: room_id.clone(), player1: ctx.player1, amount };
    let escrow = WagerEscrow {
        room_id,
        player1: ctx.player1,
        player2: Pubkey::zeroed(),
        amount,
        state: WagerState::WaitingForPlayer2,
        authority: ctx.authority,
        bump: ctx.bump,
    };
    *slot = Some(WagerAccount { key: ctx.wager, escrow, lamports: amount });
    let deposit = Transfer { from: ctx.player1, to: ctx.wager, amount };
    let transfers = vec![deposit];
    proof {
        assert(transfers@ =~= seq![deposit]);
    }
    Ok((transfers, event))
}

/// The error with which joining a wager fails, if any.
pub open spec fn join_error(ctx: JoinWager, slot: Option<WagerAccount>) -> Option<WagerError> {
    if !ctx.player2_signed {
        Some(WagerError::MissingSigner)
    } else {
        match slot {
            None => Some(WagerError::RecordNotFound),
            Some(a) => if a.escrow.state != WagerState::WaitingForPlayer2 {
                Some(WagerError::Program(CodeBattleError::InvalidState))
            } else if ctx.player2@ == a.escrow.player1@ {
                Some(WagerError::Program(CodeBattleError::SamePlayer))
            } else if a.lamports + a.escrow.amount > u64::MAX {
                Some(WagerError::ArithmeticOverflow)
            } else {
                None
            },
        }
    }
}

/// The account after player 2 has joined it: player 2 recorded, the wager
/// active, and one more stake in custody.
pub open spec fn joined(a: WagerAccount, ctx: JoinWager) -> WagerAccount {
    WagerAccount {
        lamports: (a.lamports + a.escrow.amount) as u64,
        escrow: WagerEscrow { player2: ctx.player2, state: WagerState::Active, ..a.escrow },
        ..a
    }
}

/// Player 2 joins a waiting wager: the record becomes active and player 2's
/// stake moves into custody.
pub fn join_wager(ctx: &JoinWager, slot: &mut Option<WagerAccount>) -> (r: Result<
    (Vec<Transfer>, WagerJoined),
    WagerError,
>)
    requires
        *old(slot) matches Some(a) ==> a.wf(),
    ensures
        r is Err <==> join_error(*ctx, *old(slot)) is Some,
        r matches Err(e) ==> join_error(*ctx, *old(slot)) == Some(e) && *final(slot) == *old(
            slot,
        ),
        r is Ok ==> (*old(slot) matches Some(a) && *final(slot) == Some(joined(a, *ctx))),
        r matches Ok((t, ev)) ==> (*old(slot) matches Some(a) && t@ == seq![
            (Transfer { from: ctx.player2, to: a.key, amount: a.escrow.amount }),
        ] && ev.room_id == a.escrow.room_id && ev.player2 == ctx.player2),
        *final(slot) matches Some(b) ==> b.wf(),
{
    if !ctx.player2_signed {
        return Err(WagerError::MissingSigner);
    }
    let taken = slot.take();
    let mut a = match taken {
        None => {
            return Err(WagerError::RecordNotFound);
        },
        Some(a) => a,
    };
    if a.escrow.state != WagerState::WaitingForPlayer2 {
        *slot = Some(a);
        return Err(WagerError::Program(CodeBattleError::InvalidState));
    }
    if ctx.player2.same_as(&a.escrow.player1) {
        *slot = Some(a);
        return Err(WagerError::Program(CodeBattleError::SamePlayer));
    }
    let amount = a.escrow.amount;
    if a.lamports > u64::MAX - amount {
        *slot = Some(a);
        return Err(WagerError::ArithmeticOverflow);
    }
    a.escrow.player2 = ctx.player2;
    a.escrow.state = WagerState::Active;
    a.lamports = a.lamports + amount;
    let deposit = Transfer { from: ctx.player2, to: a.key, amount };
    let event = WagerJoined { room_id: a.escrow.room_id.clone(), player2: ctx.player2 };
    *slot = Some(a);
    let transfers = vec![deposit];
    proof {
        assert(transfers@ =~= seq![deposit]);
    }
    Ok((transfers, event))
}

/// The error with which settling a wager fails, if any.
pub open spec fn settle_error(ctx: DeclareWinner, slot: Option<WagerAccount>, winner: Pubkey) -> Option<
    WagerError,
> {
    if !ctx.authority_signed {
        Some(WagerError::MissingSigner)
    } else {
        match slot {
            None => Some(WagerError::RecordNotFound),
            Some(a) => if a.escrow.authority@ != ctx.authority@ {
                Some(WagerError::Program(CodeBattleError::Unauthorized))
            } else if a.escrow.state != WagerState::Active {
                Some(WagerError::Program(CodeBattleError::InvalidState))
            } else if winner@ != a.escrow.player1@ && winner@ != a.escrow.player2@ {
                Some(WagerError::Program(CodeBattleError::InvalidWinner))
            } else {
                None
            },
        }
    }
}

/// The lamports that settling moves: the payout to the winner, then what is
/// left in custody to the authority as the account closes.
pub open spec fn settle_transfers(a: WagerAccount, winner: Pubkey) -> Seq<Transfer> {
    seq![
        (Transfer { from: a.key, to: winner, amount: payout_of(a.escrow.amount as nat) as u64 }),
        (Transfer {
            from: a.key,
            to: a.escrow.authority,
            amount: (a.lamports - payout_of(a.escrow.amount as nat)) as u64,
        }),
    ]
}

/// The authority settles an active wager: the winner gets the pot less the
/// platform fee, the authority gets the rest, and the record is closed.
pub fn declare_winner(ctx: &DeclareWinner, slot: &mut Option<WagerAccount>, winner: Pubkey) -> (r:
    Result<(Vec<Transfer>, WinnerDeclared), WagerError>)
    requires
        *old(slot) matches Some(a) ==> a.wf(),
    ensures
        r is Err <==> settle_error(*ctx, *old(slot), winner) is Some,
        r matches Err(e) ==> settle_error(*ctx, *old(slot), winner) == Some(e) && *final(slot)
            == *old(slot),
        r is Ok ==> *final(slot) is None,
        r matches Ok((t, ev)) ==> (*old(slot) matches Some(a) && t@ == settle_transfers(a, winner)
            && t@[1].amount == fee_of(a.escrow.amount as nat) && ev.room_id == a.escrow.room_id
            && ev.winner == winner && ev.payout == payout_of(a.escrow.amount as nat)),
{
    if !ctx.authority_signed {
        return Err(WagerError::MissingSigner);
    }
    let a = match slot.as_ref() {
        None => {
            return Err(WagerError::RecordNotFound);
        },
        Some(a) => a,
    };
    if !a.escrow.authority.same_as(&ctx.authority) {
        return Err(WagerError::Program(CodeBattleError::Unauthorized));
    }
    if a.escrow.state != WagerState::Active {
        return Err(WagerError::Program(CodeBattleError::InvalidState));
    }
    if !winner.same_as(&a.escrow.player1) && !winner.same_as(&a.escrow.player2) {
        return Err(WagerError::Program(CodeBattleError::InvalidWinner));
    }
    let (payout, _fee) = split_pot(a.escrow.amount);
    let to_winner = Transfer { from: a.key, to: winner, amount: payout };
    let sweep = Transfer { from: a.key, to: a.escrow.authority, amount: a.lamports - payout };
    let event = WinnerDeclared { room_id: a.escrow.room_id.clone(), winner, payout };
    let transfers = vec![to_winner, sweep];
    proof {
        assert(transfers@ =~= settle_transfers(*a, winner));
    }
    *slot = None;
    Ok((transfers, event))
}

/// Whether cancelling refunds player 2: only once player 2 has deposited.
pub open spec fn refunds_player2(a: WagerAccount) -> bool {
    a.escrow.state == WagerState::Active && a.escrow.player2@ != default_key()
}

/// The lamports that cancelling moves: a stake back to player 1, a stake back
/// to player 2 if they deposited, then what is left to the authority.
pub open spec fn cancel_transfers(a: WagerAccount) -> Seq<Transfer> {
    let refund1 = Transfer { from: a.key, to: a.escrow.player1, amount: a.escrow.amount };
    if refunds_player2(a) {
        seq![
            refund1,
            (Transfer { from: a.key, to: a.escrow.player2, amount: a.escrow.amount }),
            (Transfer {
                from: a.key,
                to: a.escrow.authority,
                amount: (a.lamports - 2 * a.escrow.amount) as u64,
            }),
        ]
    } else {
        seq![
            refund1,
            (Transfer {
                from: a.key,
                to: a.escrow.authority,
                amount: (a.lamports - a.escrow.amount) as u64,
            }),
        ]
    }
}

/// The error with which cancelling a wager fails, if any.
pub open spec fn cancel_error(ctx: CancelWager, slot: Option<WagerAccount>) -> Option<WagerError> {
    if !ctx.authority_signed {
        Some(WagerError::MissingSigner)
    } else {
        match slot {
            None => Some(WagerError::RecordNotFound),
            Some(a) => if a.escrow.authority@ != ctx.authority@ {
                Some(WagerError::Program(CodeBattleError::Unauthorized))
            } else if a.escrow.state != WagerState::WaitingForPlayer2 && a.escrow.state
                != WagerState::Active {
                Some(WagerError::Program(CodeBattleError::InvalidState))
            } else {
                None
            },
        }
    }
}

/// The authority cancels an open wager: stakes go back to whoever deposited,
/// and the record is closed.
pub fn cancel_wager(ctx: &CancelWager, slot: &mut Option<WagerAccount>) -> (r: Result<
    (Vec<Transfer>, WagerCancelled),
    WagerError,
>)
    requires
        *old(slot) matches Some(a) ==> a.wf(),
    ensures
        r is Err <==> cancel_error(*ctx, *old(slot)) is Some,
        r matches Err(e) ==> cancel_error(*ctx, *old(slot)) == Some(e) && *final(slot) == *old(
            slot,
        ),
        r is Ok ==> *final(slot) is None,
        r matches Ok((t, ev)) ==> (*old(slot) matches Some(a) && t@ == cancel_transfers(a)
            && ev.room_id == a.escrow.room_id),
{
    if !ctx.authority_signed {
        return Err(WagerError::MissingSigner);
    }
    let a = match slot.as_ref() {
        None => {
            return Err(WagerError::RecordNotFound);
        },
        Some(a) => a,
    };
    if !a.escrow.authority.same_as(&ctx.authority) {
        return Err(WagerError::Program(CodeBattleError::Unauthorized));
    }
    if a.escrow.state != WagerState::WaitingForPlayer2 && a.escrow.state != WagerState::Active {
        return Err(WagerError::Program(CodeBattleError::InvalidState));
    }
    let amount = a.escrow.amount;
    let mut transfers: Vec<Transfer> = Vec::new();
    transfers.push(Transfer { from: a.key, to: a.escrow.player1, amount });
    let mut remaining: u64 = a.lamports - amount;
    if a.escrow.state == WagerState::Active && !a.escrow.player2.is_default() {
        transfers.push(Transfer { from: a.key, to: a.escrow.player2, amount });
        remaining = remaining - amount;
    }
    transfers.push(Transfer { from: a.key, to: a.escrow.authority, amount: remaining });
    let event = WagerCancelled { room_id: a.escrow.room_id.clone() };
    proof {
        assert(transfers@ =~= cancel_transfers(*a));
    }
    *slot = None;
    Ok((transfers, event))
}

} // verus!
