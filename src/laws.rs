//! Properties that relate several instructions, or several calls of one.

use crate::address::derives;
use crate::instructions::{callback_check, context_step, data_step, owner_check};
use crate::randomness::{le_value, pow256, random_value_of};
use crate::state::{Context, Ledger};
use vstd::prelude::*;

verus! {

/// After a step that replaces the record at `address` in place, the record
/// is found at the same position, with the new state.
proof fn lemma_step_keeps_position(before: &Ledger, after: &Ledger, address: Seq<u8>)
    requires
        before.wf(),
        after.wf(),
        before.holds(address),
        after.entries@.len() == before.entries@.len(),
        after.entries@[before.index_of(address)].address == before.entry_at(address).address,
    ensures
        after.holds(address),
        after.index_of(address) == before.index_of(address),
{
    let i = before.index_of(address);
    assert(before.entries@[i].address@ == address);
    assert(after.entries@[i].address@ == address);
    let k = after.index_of(address);
    assert(after.entries@[k].address@ == address);
}

/// Every stored record sits at the address that re-derives from its own
/// stored owner and bump, so the unsigned path accepts it without a key.
pub proof fn lemma_stored_records_derive(l: &Ledger, address: Seq<u8>)
    requires
        l.wf(),
        l.holds(address),
    ensures
        derives(address, l.entry_at(address).account.user@, l.entry_at(address).account.bump),
{
    let i = l.index_of(address);
    assert(l.entries@[i].address@ == address);
}

/// Successive unsigned updates of one record, `ls.len() - 1` of them, add
/// exactly that many to its data and leave its owner, bump and context alone.
pub proof fn lemma_scheduled_updates_add(ls: Seq<Ledger>, address: Seq<u8>)
    requires
        ls.len() >= 1,
        forall|k: int| 0 <= k < ls.len() ==> (#[trigger] ls[k]).wf(),
        forall|k: int|
            0 <= k < ls.len() - 1 ==> data_step(
                &#[trigger] ls[k],
                &ls[k + 1],
                address,
                (ls[k].entry_at(address).account.data + 1) as u64,
            ),
        ls[0].holds(address),
        ls[0].entry_at(address).account.data + ls.len() - 1 <= u64::MAX,
    ensures
        ls.last().holds(address),
        ls.last().entry_at(address).account.data == ls[0].entry_at(address).account.data + ls.len() - 1,
        ls.last().entry_at(address).account.user == ls[0].entry_at(address).account.user,
        ls.last().entry_at(address).account.bump == ls[0].entry_at(address).account.bump,
        ls.last().entry_at(address).context == ls[0].entry_at(address).context,
    decreases ls.len(),
{
    if ls.len() > 1 {
        let front = ls.drop_last();
        assert forall|k: int| 0 <= k < front.len() implies (#[trigger] front[k]).wf() by {
            assert(front[k] == ls[k]);
        }
        assert forall|k: int|
            0 <= k < front.len() - 1 implies data_step(
                &#[trigger] front[k],
                &front[k + 1],
                address,
                (front[k].entry_at(address).account.data + 1) as u64,
            ) by {
            assert(front[k] == ls[k]);
            assert(front[k + 1] == ls[k + 1]);
        }
        lemma_scheduled_updates_add(front, address);
        let n = ls.len() - 2;
        assert(ls[n] == front.last());
        assert(data_step(&ls[n], &ls[n + 1], address, (ls[n].entry_at(address).account.data + 1) as u64));
        lemma_step_keeps_position(&ls[n], &ls[n + 1], address);
    }
}

/// Delegating a record and undelegating it right after gives back the
/// ledger as it was, its data included.
pub proof fn lemma_delegate_undelegate_round_trip(
    l0: &Ledger,
    l1: &Ledger,
    l2: &Ledger,
    user: Seq<u8>,
    address: Seq<u8>,
)
    requires
        l0.wf(),
        l1.wf(),
        l2.wf(),
        owner_check(l0, user, address, Context::Base) is Ok,
        context_step(l0, l1, address, Context::Rollup),
        owner_check(l1, user, address, Context::Rollup) is Ok,
        context_step(l1, l2, address, Context::Base),
    ensures
        l2.unchanged(l0),
        l2.entry_at(address).account.data == l0.entry_at(address).account.data,
{
    lemma_step_keeps_position(l0, l1, address);
    lemma_step_keeps_position(l1, l2, address);
    assert(l2.entries@ =~= l0.entries@);
}

/// Once the oracle's callback has been accepted, the data of the record is
/// the value read from the randomness and nothing else: whatever the record
/// held, and whatever value its request carried, two callbacks with the same
/// bytes leave the same data.
pub proof fn lemma_callback_is_function_of_randomness(
    l0: &Ledger,
    l1: &Ledger,
    m0: &Ledger,
    m1: &Ledger,
    signer: Seq<u8>,
    address: Seq<u8>,
    other_signer: Seq<u8>,
    other_address: Seq<u8>,
    context: Context,
    other_context: Context,
    randomness: Seq<u8>,
)
    requires
        l0.wf(),
        l1.wf(),
        m0.wf(),
        m1.wf(),
        randomness.len() == 32,
        callback_check(l0, signer, address, context) is Ok,
        data_step(l0, l1, address, random_value_of(randomness) as u64),
        callback_check(m0, other_signer, other_address, other_context) is Ok,
        data_step(m0, m1, other_address, random_value_of(randomness) as u64),
    ensures
        l1.holds(address),
        m1.holds(other_address),
        l1.entry_at(address).account.data == m1.entry_at(other_address).account.data,
        l1.entry_at(address).account.data as nat == random_value_of(randomness),
{
    lemma_step_keeps_position(l0, l1, address);
    lemma_step_keeps_position(m0, m1, other_address);
    lemma_random_value_fits(randomness);
}

/// The value read from 32 bytes of randomness fits in 64 bits.
pub proof fn lemma_random_value_fits(randomness: Seq<u8>)
    requires
        randomness.len() == 32,
    ensures
        random_value_of(randomness) <= u64::MAX,
{
    let s = randomness.subrange(0, 8);
    assert(le_value(s) <= u64::MAX) by {
        lemma_le_value_bound(s);
        reveal_with_fuel(pow256, 9);
    }
}

/// A little-endian value of `s` is below 256 to the length of `s`.
proof fn lemma_le_value_bound(s: Seq<u8>)
    ensures
        le_value(s) < pow256(s.len()),
    decreases s.len(),
{
    if s.len() > 0 {
        lemma_le_value_bound(s.drop_first());
        let rest = le_value(s.drop_first());
        let p = pow256(s.drop_first().len());
        assert(s[0] as nat + 256 * rest < 256 * p) by (nonlinear_arith)
            requires
                rest < p,
                s[0] < 256,
        ;
    }
}

} // verus!
