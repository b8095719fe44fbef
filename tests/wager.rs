use codebattle::address::{find_wager_address, verify_wager_address, wager_seeds};
use codebattle::fees::split_pot;
use codebattle::instructions::{
    cancel_wager, declare_winner, initialize_wager, join_wager, CancelWager, DeclareWinner,
    InitializeWager, JoinWager,
};
use codebattle::pubkey::Pubkey;
use codebattle::state::{CodeBattleError, Transfer, WagerAccount, WagerError, WagerState};
use codebattle::MIN_WAGER_LAMPORTS;

fn key(b: u8) -> Pubkey {
    Pubkey::new_from_array([b; 32])
}

const PLAYER1: u8 = 1;
const PLAYER2: u8 = 2;
const AUTHORITY: u8 = 9;
const ESCROW: u8 = 7;
const OUTSIDER: u8 = 5;

fn init_ctx() -> InitializeWager {
    InitializeWager {
        player1: key(PLAYER1),
        player1_signed: true,
        authority: key(AUTHORITY),
        wager: key(ESCROW),
        bump: 254,
    }
}

fn join_ctx(who: u8) -> JoinWager {
    JoinWager { player2: key(who), player2_signed: true }
}

fn settle_ctx() -> DeclareWinner {
    DeclareWinner { authority: key(AUTHORITY), authority_signed: true }
}

fn cancel_ctx() -> CancelWager {
    CancelWager { authority: key(AUTHORITY), authority_signed: true }
}

fn opened(amount: u64) -> Option<WagerAccount> {
    let mut slot = None;
    initialize_wager(&init_ctx(), &mut slot, "room-1".to_string(), amount).unwrap();
    slot
}

fn active(amount: u64) -> Option<WagerAccount> {
    let mut slot = opened(amount);
    join_wager(&join_ctx(PLAYER2), &mut slot).unwrap();
    slot
}

fn assert_transfer(t: &Transfer, from: u8, to: u8, amount: u64) {
    assert_eq!(t.from.bytes, [from; 32]);
    assert_eq!(t.to.bytes, [to; 32]);
    assert_eq!(t.amount, amount);
}

#[test]
fn initialize_opens_waiting_wager() {
    let mut slot = None;
    let (transfers, event) =
        initialize_wager(&init_ctx(), &mut slot, "room-1".to_string(), 1_000_000).unwrap();
    let a = slot.unwrap();
    assert_eq!(a.escrow.state, WagerState::WaitingForPlayer2);
    assert_eq!(a.lamports, 1_000_000);
    assert_eq!(a.escrow.amount, 1_000_000);
    assert_eq!(a.escrow.room_id, "room-1");
    assert_eq!(a.escrow.player1.bytes, [PLAYER1; 32]);
    assert_eq!(a.escrow.player2.bytes, [0; 32]);
    assert_eq!(a.escrow.authority.bytes, [AUTHORITY; 32]);
    assert_eq!(a.escrow.bump, 254);
    assert_eq!(a.key.bytes, [ESCROW; 32]);
    assert!(a.is_well_formed());
    assert_eq!(transfers.len(), 1);
    assert_transfer(&transfers[0], PLAYER1, ESCROW, 1_000_000);
    assert_eq!(event.room_id, "room-1");
    assert_eq!(event.amount, 1_000_000);
}

#[test]
fn initialize_below_minimum_is_refused() {
    let mut slot = None;
    let r = initialize_wager(&init_ctx(), &mut slot, "m1".to_string(), 500_000);
    assert_eq!(r.err(), Some(WagerError::Program(CodeBattleError::AmountTooSmall)));
    assert!(slot.is_none());
    assert_eq!(MIN_WAGER_LAMPORTS, 1_000_000);
}

#[test]
fn initialize_long_room_id_is_refused() {
    let mut slot = None;
    let id36 = "a".repeat(36);
    assert!(initialize_wager(&init_ctx(), &mut slot, id36, 1_000_000).is_ok());
    let mut slot = None;
    let id37 = "a".repeat(37);
    let r = initialize_wager(&init_ctx(), &mut slot, id37, 1_000_000);
    assert_eq!(r.err(), Some(WagerError::Program(CodeBattleError::RoomIdTooLong)));
    assert!(slot.is_none());
}

#[test]
fn initialize_needs_signature_and_free_address() {
    let mut slot = None;
    let mut ctx = init_ctx();
    ctx.player1_signed = false;
    let r = initialize_wager(&ctx, &mut slot, "r".to_string(), 1_000_000);
    assert_eq!(r.err(), Some(WagerError::MissingSigner));
    let mut slot = opened(1_000_000);
    let r = initialize_wager(&init_ctx(), &mut slot, "r".to_string(), 2_000_000);
    assert_eq!(r.err(), Some(WagerError::AddressInUse));
    assert_eq!(slot.unwrap().escrow.amount, 1_000_000);
}

#[test]
fn join_activates_and_doubles_custody() {
    let mut slot = opened(2_000_000);
    let (transfers, event) = join_wager(&join_ctx(PLAYER2), &mut slot).unwrap();
    let a = slot.unwrap();
    assert_eq!(a.escrow.state, WagerState::Active);
    assert_eq!(a.lamports, 4_000_000);
    assert_eq!(a.escrow.player2.bytes, [PLAYER2; 32]);
    assert_transfer(&transfers[0], PLAYER2, ESCROW, 2_000_000);
    assert_eq!(transfers.len(), 1);
    assert_eq!(event.player2.bytes, [PLAYER2; 32]);
}

#[test]
fn join_by_player1_is_refused() {
    let mut slot = opened(2_000_000);
    let r = join_wager(&join_ctx(PLAYER1), &mut slot);
    assert_eq!(r.err(), Some(WagerError::Program(CodeBattleError::SamePlayer)));
    assert_eq!(slot.unwrap().escrow.state, WagerState::WaitingForPlayer2);
}

#[test]
fn join_twice_is_refused() {
    let mut slot = active(2_000_000);
    let r = join_wager(&join_ctx(OUTSIDER), &mut slot);
    assert_eq!(r.err(), Some(WagerError::Program(CodeBattleError::InvalidState)));
    assert_eq!(slot.unwrap().escrow.player2.bytes, [PLAYER2; 32]);
}

#[test]
fn join_overflowing_custody_is_refused() {
    let mut slot = opened(u64::MAX / 2 + 1);
    let r = join_wager(&join_ctx(PLAYER2), &mut slot);
    assert_eq!(r.err(), Some(WagerError::ArithmeticOverflow));
}

#[test]
fn join_needs_record_and_signature() {
    let mut slot = None;
    assert_eq!(join_wager(&join_ctx(PLAYER2), &mut slot).err(), Some(WagerError::RecordNotFound));
    let mut slot = opened(1_000_000);
    let ctx = JoinWager { player2: key(PLAYER2), player2_signed: false };
    assert_eq!(join_wager(&ctx, &mut slot).err(), Some(WagerError::MissingSigner));
}

#[test]
fn settle_pays_winner_and_sweeps_fee() {
    let mut slot = active(2_000_000);
    assert_eq!(slot.as_ref().unwrap().lamports, 4_000_000);
    let (transfers, event) = declare_winner(&settle_ctx(), &mut slot, key(PLAYER2)).unwrap();
    assert!(slot.is_none());
    assert_eq!(transfers.len(), 2);
    assert_transfer(&transfers[0], ESCROW, PLAYER2, 3_800_000);
    assert_transfer(&transfers[1], ESCROW, AUTHORITY, 200_000);
    assert_eq!(event.payout, 3_800_000);
    assert_eq!(event.winner.bytes, [PLAYER2; 32]);
}

#[test]
fn settle_to_player1() {
    let mut slot = active(1_000_001);
    let (transfers, _) = declare_winner(&settle_ctx(), &mut slot, key(PLAYER1)).unwrap();
    // pot 2_000_002, fee floor(100_000.1) = 100_000
    assert_transfer(&transfers[0], ESCROW, PLAYER1, 1_900_002);
    assert_transfer(&transfers[1], ESCROW, AUTHORITY, 100_000);
}

#[test]
fn settle_refusals() {
    let mut slot = opened(1_000_000);
    let r = declare_winner(&settle_ctx(), &mut slot, key(PLAYER1));
    assert_eq!(r.err(), Some(WagerError::Program(CodeBattleError::InvalidState)));
    let mut slot = active(1_000_000);
    let r = declare_winner(&settle_ctx(), &mut slot, key(OUTSIDER));
    assert_eq!(r.err(), Some(WagerError::Program(CodeBattleError::InvalidWinner)));
    let ctx = DeclareWinner { authority: key(OUTSIDER), authority_signed: true };
    let r = declare_winner(&ctx, &mut slot, key(PLAYER1));
    assert_eq!(r.err(), Some(WagerError::Program(CodeBattleError::Unauthorized)));
    let ctx = DeclareWinner { authority: key(AUTHORITY), authority_signed: false };
    let r = declare_winner(&ctx, &mut slot, key(PLAYER1));
    assert_eq!(r.err(), Some(WagerError::MissingSigner));
    assert_eq!(slot.unwrap().lamports, 2_000_000);
}

#[test]
fn cancel_waiting_refunds_player1_only() {
    let mut slot = opened(3_000_000);
    let (transfers, event) = cancel_wager(&cancel_ctx(), &mut slot).unwrap();
    assert!(slot.is_none());
    assert_eq!(transfers.len(), 2);
    assert_transfer(&transfers[0], ESCROW, PLAYER1, 3_000_000);
    assert_transfer(&transfers[1], ESCROW, AUTHORITY, 0);
    assert_eq!(event.room_id, "room-1");
}

#[test]
fn cancel_active_refunds_both() {
    let mut slot = active(3_000_000);
    let (transfers, _) = cancel_wager(&cancel_ctx(), &mut slot).unwrap();
    assert!(slot.is_none());
    assert_eq!(transfers.len(), 3);
    assert_transfer(&transfers[0], ESCROW, PLAYER1, 3_000_000);
    assert_transfer(&transfers[1], ESCROW, PLAYER2, 3_000_000);
    assert_transfer(&transfers[2], ESCROW, AUTHORITY, 0);
}

#[test]
fn cancel_twice_fails_without_transfers() {
    let mut slot = active(1_000_000);
    assert!(cancel_wager(&cancel_ctx(), &mut slot).is_ok());
    let r = cancel_wager(&cancel_ctx(), &mut slot);
    assert_eq!(r.err(), Some(WagerError::RecordNotFound));
    assert!(slot.is_none());
}

#[test]
fn closed_record_takes_no_instruction() {
    let mut slot = active(1_000_000);
    assert!(declare_winner(&settle_ctx(), &mut slot, key(PLAYER1)).is_ok());
    assert_eq!(
        declare_winner(&settle_ctx(), &mut slot, key(PLAYER1)).err(),
        Some(WagerError::RecordNotFound)
    );
    assert_eq!(cancel_wager(&cancel_ctx(), &mut slot).err(), Some(WagerError::RecordNotFound));
    assert_eq!(join_wager(&join_ctx(PLAYER2), &mut slot).err(), Some(WagerError::RecordNotFound));
}

#[test]
fn cancel_refusals() {
    let mut slot = active(1_000_000);
    let ctx = CancelWager { authority: key(OUTSIDER), authority_signed: true };
    let r = cancel_wager(&ctx, &mut slot);
    assert_eq!(r.err(), Some(WagerError::Program(CodeBattleError::Unauthorized)));
    let mut done = slot.clone();
    done.as_mut().unwrap().escrow.state = WagerState::Completed;
    let r = cancel_wager(&cancel_ctx(), &mut done);
    assert_eq!(r.err(), Some(WagerError::Program(CodeBattleError::InvalidState)));
    assert!(done.is_some());
}

#[test]
fn split_pot_values() {
    assert_eq!(split_pot(2_000_000), (3_800_000, 200_000));
    assert_eq!(split_pot(1_000_000), (1_900_000, 100_000));
    assert_eq!(split_pot(u64::MAX / 2), (u64::MAX - 1 - (u64::MAX - 1) / 20, (u64::MAX - 1) / 20));
}

#[test]
fn wager_address_is_derived_and_checked() {
    let program = key(42);
    let (addr, bump) = find_wager_address("room-1", &program).unwrap();
    assert_ne!(addr.bytes, program.bytes);
    assert_eq!(find_wager_address("room-1", &program).map(|(k, b)| (k.bytes, b)), Some((addr.bytes, bump)));
    let other = find_wager_address("room-2", &program).unwrap();
    assert_ne!(other.0.bytes, addr.bytes);

    let mut slot = None;
    let ctx = InitializeWager { wager: addr, bump, ..init_ctx() };
    initialize_wager(&ctx, &mut slot, "room-1".to_string(), 1_000_000).unwrap();
    let mut account = slot.unwrap();
    assert!(verify_wager_address(&account, &program));
    account.key = key(ESCROW);
    assert!(!verify_wager_address(&account, &program));
}

#[test]
fn long_room_id_has_no_address() {
    let program = key(42);
    assert!(find_wager_address(&"a".repeat(32), &program).is_some());
    assert!(find_wager_address(&"a".repeat(33), &program).is_none());
}

#[test]
fn seeds_are_tag_then_room_id() {
    let seeds = wager_seeds("ab");
    assert_eq!(seeds, vec![b"wager".to_vec(), b"ab".to_vec()]);
}

#[test]
fn closing_moves_out_all_custody() {
    let mut slot = active(1_234_567);
    let custody = slot.as_ref().unwrap().lamports;
    let (transfers, _) = declare_winner(&settle_ctx(), &mut slot, key(PLAYER1)).unwrap();
    assert_eq!(transfers.iter().map(|t| t.amount).sum::<u64>(), custody);

    let mut slot = opened(1_234_567);
    let custody = slot.as_ref().unwrap().lamports;
    let (transfers, _) = cancel_wager(&cancel_ctx(), &mut slot).unwrap();
    assert_eq!(transfers.iter().map(|t| t.amount).sum::<u64>(), custody);
}

#[test]
fn well_formedness_check() {
    let mut a = active(1_000_000).unwrap();
    assert!(a.is_well_formed());
    a.lamports = 1_000_000;
    assert!(!a.is_well_formed());
    let mut b = opened(1_000_000).unwrap();
    b.escrow.amount = 999_999;
    b.lamports = 999_999;
    assert!(!b.is_well_formed());
}

#[test]
fn pubkey_comparison() {
    assert!(key(3).same_as(&key(3)));
    assert!(!key(3).same_as(&key(4)));
    assert!(Pubkey::zeroed().is_default());
    assert!(!key(1).is_default());
}
