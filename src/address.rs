use vstd::prelude::*;
use crate::pubkey::Pubkey;
use crate::state::{room_id_bytes, WagerAccount};

verus! {

/// The address that `Pubkey::create_program_address` derives from the seeds
/// and the program id, or `None` where it refuses them.
pub uninterp spec fn created_program_address(seeds: Seq<Seq<u8>>, program: Seq<u8>) -> Option<
    Seq<u8>,
>;

/// The address and bump that `Pubkey::try_find_program_address` finds for the
/// seeds and the program id, or `None` where it finds none.
pub uninterp spec fn found_program_address(seeds: Seq<Seq<u8>>, program: Seq<u8>) -> Option<
    (Seq<u8>, u8),
>;

/// Whether a list of seeds breaks the limits of program addresses: at most
/// `max_seeds` seeds, each at most 32 bytes long.
pub open spec fn seeds_exceed(seeds: Seq<Seq<u8>>, max_seeds: nat) -> bool {
    seeds.len() > max_seeds || exists|i: int| 0 <= i < seeds.len() && #[trigger] seeds[i].len() > 32
}

/// Relies on solana's `Pubkey::create_program_address`, reached through
/// `anchor_lang`: it hashes the seeds with the program id, refuses more than 16
/// seeds or a seed longer than 32 bytes, and refuses a hash that lies on the
/// curve.
#[verifier::external_body]
fn create_program_address(seeds: &Vec<Vec<u8>>, program_id: &Pubkey) -> (r: Option<Pubkey>)
    ensures
        r matches Some(k) ==> created_program_address(seeds.deep_view(), program_id@) == Some(k@),
        r is None ==> created_program_address(seeds.deep_view(), program_id@) is None,
        seeds_exceed(seeds.deep_view(), 16) ==> r is None,
{
    let refs: Vec<&[u8]> = seeds.iter().map(|s| s.as_slice()).collect();
    let program = anchor_lang::solana_program::pubkey::Pubkey::new_from_array(program_id.bytes);
    anchor_lang::solana_program::pubkey::Pubkey::create_program_address(&refs, &program).ok().map(
        |k| Pubkey { bytes: k.to_bytes() },
    )
}

/// Relies on solana's `Pubkey::try_find_program_address`, reached through
/// `anchor_lang`: it tries the bumps from 255 down, appends each as one more
/// seed, and returns the first address that `create_program_address` accepts
/// with that bump; it gives up at once on more than 15 seeds or a seed longer
/// than 32 bytes.
#[verifier::external_body]
fn try_find_program_address(seeds: &Vec<Vec<u8>>, program_id: &Pubkey) -> (r: Option<(Pubkey, u8)>)
    ensures
        r matches Some((k, b)) ==> found_program_address(seeds.deep_view(), program_id@) == Some(
            (k@, b),
        ) && created_program_address(seeds.deep_view().push(seq![b]), program_id@) == Some(k@),
        r is None ==> found_program_address(seeds.deep_view(), program_id@) is None,
        seeds_exceed(seeds.deep_view(), 15) ==> r is None,
{
    let refs: Vec<&[u8]> = seeds.iter().map(|s| s.as_slice()).collect();
    let program = anchor_lang::solana_program::pubkey::Pubkey::new_from_array(program_id.bytes);
    anchor_lang::solana_program::pubkey::Pubkey::try_find_program_address(&refs, &program).map(
        |(k, b)| (Pubkey { bytes: k.to_bytes() }, b),
    )
}

/// The fixed domain tag of wager addresses: the bytes of "wager".
pub open spec fn wager_tag() -> Seq<u8> {
    seq![119u8, 97u8, 103u8, 101u8, 114u8]
}

/// The seeds of a room's wager address: the domain tag, then the room id.
pub open spec fn wager_seeds_of(room_id: Seq<char>) -> Seq<Seq<u8>> {
    seq![wager_tag(), room_id_bytes(room_id)]
}

fn copy_bytes(s: &[u8]) -> (r: Vec<u8>)
    ensures
        r@ == s@,
{
    let mut r: Vec<u8> = Vec::new();
    let mut i: usize = 0;
    while i < s.len()
        invariant
            i <= s@.len(),
            r@ == s@.subrange(0, i as int),
        decreases s@.len() - i,
    {
        r.push(s[i]);
        i = i + 1;
    }
    assert(r@ =~= s@);
    r
}

/// The seeds from which a room's wager address is derived.
pub fn wager_seeds(room_id: &str) -> (r: Vec<Vec<u8>>)
    ensures
        r.deep_view() == wager_seeds_of(room_id@),
        r@.len() == 2,
{
    let tag: Vec<u8> = vec![119u8, 97u8, 103u8, 101u8, 114u8];
    let id = copy_bytes(room_id.as_bytes());
    let r: Vec<Vec<u8>> = vec![tag, id];
    assert(r.deep_view()[0] =~= wager_tag());
    assert(r.deep_view()[1] =~= room_id_bytes(room_id@));
    assert(r.deep_view() =~= wager_seeds_of(room_id@));
    r
}

/// Derives the canonical address of a room's wager, and the bump that makes it
/// a program address. A room id longer than 32 bytes has none.
pub fn find_wager_address(room_id: &str, program_id: &Pubkey) -> (r: Option<(Pubkey, u8)>)
    ensures
        r matches Some((k, b)) ==> found_program_address(wager_seeds_of(room_id@), program_id@)
            == Some((k@, b)),
        r is None ==> found_program_address(wager_seeds_of(room_id@), program_id@) is None,
        room_id_bytes(room_id@).len() > 32 ==> r is None,
        r matches Some((k, b)) ==> created_program_address(
            wager_seeds_of(room_id@).push(seq![b]),
            program_id@,
        ) == Some(k@),
{
    let seeds = wager_seeds(room_id);
    proof {
        if room_id_bytes(room_id@).len() > 32 {
            assert(seeds.deep_view()[1].len() > 32);
        }
    }
    try_find_program_address(&seeds, program_id)
}

/// Checks that an account lives at the address that its room id and stored
/// bump derive.
pub fn verify_wager_address(account: &WagerAccount, program_id: &Pubkey) -> (r: bool)
    ensures
        r == (created_program_address(
            wager_seeds_of(account.escrow.room_id@).push(seq![account.escrow.bump]),
            program_id@,
        ) == Some(account.key@)),
{
    let mut seeds = wager_seeds(account.escrow.room_id.as_str());
    let ghost base = seeds.deep_view();
    let ghost before = seeds@;
    seeds.push(vec![account.escrow.bump]);
    proof {
        assert(seeds@[0] == before[0] && seeds@[1] == before[1]);
        assert(seeds.deep_view()[0] == base[0]);
        assert(seeds.deep_view()[1] == base[1]);
        assert(seeds.deep_view()[2] =~= seq![account.escrow.bump]);
        assert(seeds.deep_view() =~= wager_seeds_of(account.escrow.room_id@).push(
            seq![account.escrow.bump],
        ));
    }
    match create_program_address(&seeds, program_id) {
        Some(k) => k.same_as(&account.key),
        None => false,
    }
}

} // verus!
