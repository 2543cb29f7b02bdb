//! The two halves of the randomness protocol that run inside this program:
//! the request that carries a seed, and the transform of delivered bytes.

use crate::address::Key;
use vstd::arithmetic::div_mod::lemma_div_denominator;
use vstd::prelude::*;

verus! {

/// The discriminator of the callback instruction that the oracle invokes.
pub const CALLBACK_DISCRIMINATOR: [u8; 8] = [186, 93, 55, 242, 131, 30, 3, 106];

pub open spec fn pow256(n: nat) -> nat
    decreases n,
{
    if n == 0 {
        1
    } else {
        256 * pow256((n - 1) as nat)
    }
}

/// The unsigned integer that `s` encodes, least significant byte first.
pub open spec fn le_value(s: Seq<u8>) -> nat
    decreases s.len(),
{
    if s.len() == 0 {
        0
    } else {
        s[0] as nat + 256 * le_value(s.drop_first())
    }
}

/// The value that the callback stores: bytes 0 to 7 of the randomness,
/// read as a little-endian integer.
pub open spec fn random_value_of(randomness: Seq<u8>) -> nat {
    le_value(randomness.subrange(0, 8))
}

/// Byte `i` of `n`, least significant first.
pub open spec fn le_byte(n: u64, i: nat) -> u8 {
    ((n as nat / pow256(i)) % 256) as u8
}

/// The caller seed of a request for `n`: its eight bytes, least significant
/// first, then zeros up to the oracle's seed width.
pub open spec fn seed_of(n: u64) -> Seq<u8> {
    Seq::new(32, |i: int| if i < 8 { le_byte(n, i as nat) } else { 0u8 })
}

proof fn lemma_pow256_positive(n: nat)
    ensures
        pow256(n) > 0,
    decreases n,
{
    if n > 0 {
        lemma_pow256_positive((n - 1) as nat);
    }
}

/// Reads bytes 0 to 7 of the delivered randomness as a little-endian u64.
pub fn random_value(randomness: &[u8; 32]) -> (r: u64)
    ensures
        r as nat == random_value_of(randomness@),
{
    broadcast use vstd::array::group_array_axioms;

    let ghost s = randomness@;
    let mut acc: u64 = 0;
    let mut i: usize = 8;
    assert(s.subrange(8, 8) =~= Seq::<u8>::empty());
    assert(pow256(0) == 1);
    while i > 0
        invariant
            i <= 8,
            s.len() == 32,
            s == randomness@,
            acc as nat == le_value(s.subrange(i as int, 8)),
            (acc as nat) < pow256((8 - i) as nat),
        decreases i,
    {
        let b = randomness[i - 1];
        proof {
            let t = s.subrange(i - 1, 8);
            assert(t.drop_first() =~= s.subrange(i as int, 8));
            assert(t[0] == b);
            assert(le_value(t) == b as nat + 256 * le_value(s.subrange(i as int, 8)));
            assert(pow256((9 - i) as nat) == 256 * pow256((8 - i) as nat));
            reveal_with_fuel(pow256, 9);
            assert(pow256((9 - i) as nat) <= pow256(8));
            assert(pow256(8) == 0x1_0000_0000_0000_0000);
            assert(b as nat + 256 * (acc as nat) < 256 * pow256((8 - i) as nat)) by (nonlinear_arith)
                requires
                    (acc as nat) < pow256((8 - i) as nat),
                    b < 256,
            ;
        }
        acc = b as u64 + 256 * acc;
        i = i - 1;
    }
    assert(s.subrange(0, 8) == s.subrange(i as int, 8));
    acc
}

/// Builds the caller seed for a request carrying `n`.
pub fn caller_seed(n: u64) -> (r: [u8; 32])
    ensures
        r@ == seed_of(n),
{
    broadcast use vstd::array::group_array_axioms;

    let mut seed: [u8; 32] = [0u8; 32];
    let mut rest: u64 = n;
    let mut i: usize = 0;
    assert(pow256(0) == 1);
    while i < 8
        invariant
            i <= 8,
            seed@.len() == 32,
            rest as nat == n as nat / pow256(i as nat),
            forall|j: int| 0 <= j < i ==> seed@[j] == le_byte(n, j as nat),
            forall|j: int| i <= j < 32 ==> seed@[j] == 0u8,
        decreases 8 - i,
    {
        proof {
            lemma_pow256_positive(i as nat);
            lemma_div_denominator(n as int, pow256(i as nat) as int, 256);
            assert(pow256((i + 1) as nat) == pow256(i as nat) * 256);
        }
        seed.set(i, (rest % 256) as u8);
        rest = rest / 256;
        i = i + 1;
    }
    assert(seed@ =~= seed_of(n));
    seed
}

/// Relies on ephemeral_vrf_sdk::consts::VRF_PROGRAM_IDENTITY: the identity
/// that signs every randomness callback.
#[verifier::external_body]
pub(crate) fn vrf_program_identity() -> (r: Key) {
    Key { bytes: ephemeral_vrf_sdk::consts::VRF_PROGRAM_IDENTITY.to_bytes() }
}

/// Relies on ephemeral_vrf_sdk::consts::DEFAULT_EPHEMERAL_QUEUE: the queue that
/// takes randomness requests made inside the rollup.
#[verifier::external_body]
pub(crate) fn default_ephemeral_queue() -> (r: Key) {
    Key { bytes: ephemeral_vrf_sdk::consts::DEFAULT_EPHEMERAL_QUEUE.to_bytes() }
}

/// An account handed to the callback, with its flags.
#[derive(Clone, Copy, Debug)]
pub struct CallbackAccount {
    pub pubkey: Key,
    pub is_signer: bool,
    pub is_writable: bool,
}

/// A randomness request, addressed to the oracle's queue.
#[derive(Debug)]
pub struct RandomnessRequest {
    pub payer: Key,
    pub oracle_queue: Key,
    pub callback_program_id: Key,
    pub callback_discriminator: [u8; 8],
    pub caller_seed: [u8; 32],
    pub accounts_metas: Vec<CallbackAccount>,
}

} // verus!
