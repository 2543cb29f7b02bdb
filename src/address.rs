//! Keys, program-derived addresses and the derived-authority check.

use anchor_lang::prelude::Pubkey;
use vstd::prelude::*;

verus! {

/// A 32-byte public identity or account address.
#[derive(Clone, Copy, Debug, PartialEq, Eq)]
pub struct Key {
    pub bytes: [u8; 32],
}

impl View for Key {
    type V = Seq<u8>;

    open spec fn view(&self) -> Seq<u8> {
        self.bytes@
    }
}

impl Key {
    pub fn new(bytes: [u8; 32]) -> (r: Key)
        ensures
            r.bytes == bytes,
    {
        Key { bytes }
    }

    /// Byte-wise equality of two keys.
    pub fn same(&self, other: &Key) -> (r: bool)
        ensures
            r == (self@ == other@),
    {
        broadcast use vstd::array::group_array_axioms;

        let mut i: usize = 0;
        while i < 32
            invariant
                i <= 32,
                self@.len() == 32,
                other@.len() == 32,
                forall|j: int| 0 <= j < i ==> self@[j] == other@[j],
            decreases 32 - i,
        {
            if self.bytes[i] != other.bytes[i] {
                return false;
            }
            i = i + 1;
        }
        assert(self@ =~= other@);
        true
    }
}

/// The namespace tag that every record address is derived from.
pub const USER_SEED: [u8; 4] = [117, 115, 101, 114];

/// The address of the program that owns the records.
pub const PROGRAM_ID: [u8; 32] = [
    35, 186, 138, 233, 240, 143, 28, 244, 249, 87, 150, 131, 176, 26, 213, 61,
    16, 200, 137, 172, 89, 83, 183, 215, 234, 137, 235, 23, 74, 79, 158, 243,
];

/// The program id as a key.
pub fn program_id() -> (r: Key)
    ensures
        r@ == PROGRAM_ID@,
{
    Key { bytes: PROGRAM_ID }
}

/// The address that the runtime derives from `seeds` under `program`, or
/// none where the seeds are invalid or the hash lies on the curve.
pub uninterp spec fn created_address(seeds: Seq<Seq<u8>>, program: Seq<u8>) -> Option<Seq<u8>>;

/// The first viable address and bump seed that the runtime finds for
/// `seeds` under `program`, searching bumps from 255 down.
pub uninterp spec fn found_address(seeds: Seq<Seq<u8>>, program: Seq<u8>) -> Option<(Seq<u8>, u8)>;

/// The seeds of the record of `owner`, without the bump.
pub open spec fn user_seeds(owner: Seq<u8>) -> Seq<Seq<u8>> {
    seq![USER_SEED@, owner]
}

/// The seeds of the record of `owner`, bump included.
pub open spec fn user_seeds_with_bump(owner: Seq<u8>, bump: u8) -> Seq<Seq<u8>> {
    seq![USER_SEED@, owner, seq![bump]]
}

/// Whether `address` re-derives from `owner` and `bump` under this program.
pub open spec fn derives(address: Seq<u8>, owner: Seq<u8>, bump: u8) -> bool {
    created_address(user_seeds_with_bump(owner, bump), PROGRAM_ID@) == Some(address)
}

/// Relies on Pubkey::create_program_address: the derived address of the
/// seeds under the program, or an error where there is none.
#[verifier::external_body]
fn create_program_address(a: &[u8; 4], b: &[u8; 32], bump: u8, program: &Key) -> (r: Option<Key>)
    ensures
        match r {
            Some(k) => created_address(seq![a@, b@, seq![bump]], program@) == Some(k@),
            None => created_address(seq![a@, b@, seq![bump]], program@) is None,
        },
{
    let program = Pubkey::new_from_array(program.bytes);
    Pubkey::create_program_address(&[a, b, &[bump]], &program).ok().map(|k| Key { bytes: k.to_bytes() })
}

/// Relies on Pubkey::try_find_program_address: the first bump from 255 down
/// for which create_program_address succeeds, with that address.
#[verifier::external_body]
fn try_find_program_address(a: &[u8; 4], b: &[u8; 32], program: &Key) -> (r: Option<(Key, u8)>)
    ensures
        match r {
            Some(p) => found_address(seq![a@, b@], program@) == Some((p.0@, p.1))
                && created_address(seq![a@, b@, seq![p.1]], program@) == Some(p.0@),
            None => found_address(seq![a@, b@], program@) is None,
        },
{
    let program = Pubkey::new_from_array(program.bytes);
    Pubkey::try_find_program_address(&[a, b], &program).map(|(k, bump)| (Key { bytes: k.to_bytes() }, bump))
}

/// Finds the canonical address and bump of the record of `owner`.
pub fn find_user_address(owner: &Key) -> (r: Option<(Key, u8)>)
    ensures
        match r {
            Some(p) => found_address(user_seeds(owner@), PROGRAM_ID@) == Some((p.0@, p.1))
                && derives(p.0@, owner@, p.1),
            None => found_address(user_seeds(owner@), PROGRAM_ID@) is None,
        },
{
    let program = program_id();
    let seed = USER_SEED;
    try_find_program_address(&seed, &owner.bytes, &program)
}

/// The derived-authority check: whether `claimed` is the address that
/// re-derives from the stored owner and bump, so that no signature is needed.
pub fn verify_derived_authority(owner: &Key, bump: u8, claimed: &Key) -> (r: bool)
    ensures
        r == derives(claimed@, owner@, bump),
{
    let program = program_id();
    let seed = USER_SEED;
    match create_program_address(&seed, &owner.bytes, bump, &program) {
        Some(k) => k.same(claimed),
        None => false,
    }
}

} // verus!
