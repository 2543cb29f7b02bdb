//! The instructions of the program, each checked on its own and applied to
//! the ledger all or nothing.

use crate::address::{derives, find_user_address, found_address, user_seeds, verify_derived_authority, Key, PROGRAM_ID};
use crate::randomness::{caller_seed, random_value, random_value_of, seed_of, CallbackAccount, RandomnessRequest, CALLBACK_DISCRIMINATOR};
use crate::state::{Context, Entry, ErrorCode, Ledger, ScheduledTask, UserAccount};
use vstd::prelude::*;

verus! {

/// The outcome of the checks of an owner-signed instruction on the record at
/// `address`, which must be held by `context`.
pub open spec fn owner_check(l: &Ledger, user: Seq<u8>, address: Seq<u8>, context: Context) -> Result<(), ErrorCode> {
    if !l.holds(address) {
        Err(ErrorCode::RecordNotFound)
    } else if l.entry_at(address).context != context {
        Err(ErrorCode::InvalidContextForOperation)
    } else if l.entry_at(address).account.user@ != user {
        Err(ErrorCode::UnauthorizedSigner)
    } else {
        Ok(())
    }
}

/// The outcome of the checks of an unsigned instruction on the record at
/// `address`, run in `context`.
pub open spec fn record_check(l: &Ledger, address: Seq<u8>, context: Context) -> Result<(), ErrorCode> {
    if !l.holds(address) {
        Err(ErrorCode::RecordNotFound)
    } else if l.entry_at(address).context != context {
        Err(ErrorCode::InvalidContextForOperation)
    } else {
        Ok(())
    }
}

/// `after` is `before` with the data of the record at `address` set to `data`.
pub open spec fn data_step(before: &Ledger, after: &Ledger, address: Seq<u8>, data: u64) -> bool {
    &&& before.holds(address)
    &&& after.same_but_entries(before)
    &&& after.entries@ == before.entries@.update(
        before.index_of(address),
        before.entry_at(address).with_data(data),
    )
    &&& after.holds(address)
    &&& after.entry_at(address) == before.entry_at(address).with_data(data)
}

/// `after` is `before` with the record at `address` held by `context`.
pub open spec fn context_step(before: &Ledger, after: &Ledger, address: Seq<u8>, context: Context) -> bool {
    &&& before.holds(address)
    &&& after.same_but_entries(before)
    &&& after.entries@ == before.entries@.update(
        before.index_of(address),
        before.entry_at(address).with_context(context),
    )
    &&& after.holds(address)
    &&& after.entry_at(address) == before.entry_at(address).with_context(context)
}

/// Runs the checks of an owner-signed instruction: the record exists, its
/// context is `context`, the signer is its owner, and its address re-derives
/// from the signer and the stored bump.
fn authorize_owner(ledger: &Ledger, user: &Key, address: &Key, context: Context) -> (r: Result<usize, ErrorCode>)
    requires
        ledger.wf(),
    ensures
        match r {
            Ok(i) => owner_check(ledger, user@, address@, context) is Ok && i as int == ledger.index_of(
                address@,
            ) && i < ledger.entries@.len(),
            Err(e) => owner_check(ledger, user@, address@, context) == Err::<(), ErrorCode>(e),
        },
{
    let i = match ledger.find(address) {
        Some(i) => i,
        None => return Err(ErrorCode::RecordNotFound),
    };
    let e = ledger.entries[i];
    if e.context != context {
        return Err(ErrorCode::InvalidContextForOperation);
    }
    if !user.same(&e.account.user) {
        return Err(ErrorCode::UnauthorizedSigner);
    }
    assert(derives(ledger.entries@[i as int].address@, e.account.user@, e.account.bump));
    if !verify_derived_authority(user, e.account.bump, address) {
        return Err(ErrorCode::AddressMismatch);
    }
    Ok(i)
}

/// Runs the checks of an unsigned instruction: the record exists, it is held
/// by `context`, and its address re-derives from its own stored owner and bump.
fn authorize_record(ledger: &Ledger, address: &Key, context: Context) -> (r: Result<usize, ErrorCode>)
    requires
        ledger.wf(),
    ensures
        match r {
            Ok(i) => record_check(ledger, address@, context) is Ok && i as int == ledger.index_of(
                address@,
            ) && i < ledger.entries@.len(),
            Err(e) => record_check(ledger, address@, context) == Err::<(), ErrorCode>(e),
        },
{
    let i = match ledger.find(address) {
        Some(i) => i,
        None => return Err(ErrorCode::RecordNotFound),
    };
    let e = ledger.entries[i];
    if e.context != context {
        return Err(ErrorCode::InvalidContextForOperation);
    }
    assert(derives(ledger.entries@[i as int].address@, e.account.user@, e.account.bump));
    if !verify_derived_authority(&e.account.user, e.account.bump, address) {
        return Err(ErrorCode::AddressMismatch);
    }
    Ok(i)
}

/// Replaces the record at position `i`, keeping its address, owner and bump.
fn replace_entry(ledger: &mut Ledger, i: usize, e: Entry)
    requires
        old(ledger).wf(),
        i < old(ledger).entries@.len(),
        e.address == old(ledger).entries@[i as int].address,
        e.account.user == old(ledger).entries@[i as int].account.user,
        e.account.bump == old(ledger).entries@[i as int].account.bump,
    ensures
        final(ledger).wf(),
        final(ledger).same_but_entries(old(ledger)),
        final(ledger).entries@ == old(ledger).entries@.update(i as int, e),
        final(ledger).holds(e.address@),
        final(ledger).index_of(e.address@) == i,
{
    ledger.entries.set(i, e);
    assert forall|j: int| 0 <= j < ledger.entries@.len() implies derives(
        #[trigger] ledger.entries@[j].address@,
        ledger.entries@[j].account.user@,
        ledger.entries@[j].account.bump,
    ) by {
        if j != i as int {
            assert(ledger.entries@[j] == old(ledger).entries@[j]);
        }
    }
    assert forall|j: int, k: int|
        0 <= j < ledger.entries@.len() && 0 <= k < ledger.entries@.len()
            && #[trigger] ledger.entries@[j].address@ == #[trigger] ledger.entries@[k].address@ implies j == k by {
        assert(old(ledger).entries@[j].address@ == ledger.entries@[j].address@);
        assert(old(ledger).entries@[k].address@ == ledger.entries@[k].address@);
    }
    assert(ledger.entries@[i as int].address@ == e.address@);
    assert(ledger.holds(e.address@));
    let ghost k = ledger.index_of(e.address@);
    assert(ledger.entries@[k].address@ == e.address@);
}

/// Creates the record of `user` at its canonical derived address, with data
/// zero, in the base context.
pub fn initialize(ledger: &mut Ledger, user: &Key) -> (r: Result<Key, ErrorCode>)
    requires
        old(ledger).wf(),
    ensures
        final(ledger).wf(),
        match found_address(user_seeds(user@), PROGRAM_ID@) {
            None => r == Err::<Key, ErrorCode>(ErrorCode::AddressMismatch),
            Some(p) => if old(ledger).holds(p.0) {
                r == Err::<Key, ErrorCode>(ErrorCode::RecordAlreadyExists)
            } else {
                &&& r is Ok && r->Ok_0@ == p.0
                &&& derives(p.0, user@, p.1)
                &&& final(ledger).same_but_entries(old(ledger))
                &&& final(ledger).entries@ == old(ledger).entries@.push(
                    Entry {
                        address: r->Ok_0,
                        account: UserAccount { user: *user, data: 0, bump: p.1 },
                        context: Context::Base,
                    },
                )
            },
        },
        r is Ok ==> {
            let k = r->Ok_0@;
            &&& final(ledger).holds(k)
            &&& final(ledger).entry_at(k).account.data == 0
            &&& final(ledger).entry_at(k).account.user == *user
            &&& final(ledger).entry_at(k).context == Context::Base
            &&& derives(k, user@, final(ledger).entry_at(k).account.bump)
        },
        r is Err ==> final(ledger).unchanged(old(ledger)),
{
    let (address, bump) = match find_user_address(user) {
        Some(p) => p,
        None => return Err(ErrorCode::AddressMismatch),
    };
    if ledger.find(&address).is_some() {
        return Err(ErrorCode::RecordAlreadyExists);
    }
    let e = Entry { address, account: UserAccount { user: *user, data: 0, bump }, context: Context::Base };
    ledger.entries.push(e);
    assert forall|j: int, k: int|
        0 <= j < ledger.entries@.len() && 0 <= k < ledger.entries@.len()
            && #[trigger] ledger.entries@[j].address@ == #[trigger] ledger.entries@[k].address@ implies j == k by {
        let n = old(ledger).entries@.len() as int;
        if j < n && k < n {
            assert(old(ledger).entries@[j] == ledger.entries@[j]);
            assert(old(ledger).entries@[k] == ledger.entries@[k]);
        } else if j < n {
            assert(old(ledger).entries@[j] == ledger.entries@[j]);
        } else if k < n {
            assert(old(ledger).entries@[k] == ledger.entries@[k]);
        }
    }
    assert forall|j: int| 0 <= j < ledger.entries@.len() implies derives(
        #[trigger] ledger.entries@[j].address@,
        ledger.entries@[j].account.user@,
        ledger.entries@[j].account.bump,
    ) by {
        if j < old(ledger).entries@.len() {
            assert(old(ledger).entries@[j] == ledger.entries@[j]);
        }
    }
    proof {
        let last = old(ledger).entries@.len() as int;
        assert(ledger.entries@[last].address@ == address@);
        assert(ledger.holds(address@));
        let k = ledger.index_of(address@);
        assert(ledger.entries@[k].address@ == address@);
        assert(k == last);
    }
    Ok(address)
}

/// Sets the data of the record at `user_account` to `new_data`; signed by
/// its owner, in the base context.
pub fn update(ledger: &mut Ledger, user: &Key, user_account: &Key, new_data: u64) -> (r: Result<(), ErrorCode>)
    requires
        old(ledger).wf(),
    ensures
        final(ledger).wf(),
        r == owner_check(old(ledger), user@, user_account@, Context::Base),
        r is Ok ==> data_step(old(ledger), final(ledger), user_account@, new_data),
        r is Err ==> final(ledger).unchanged(old(ledger)),
{
    let i = match authorize_owner(ledger, user, user_account, Context::Base) {
        Ok(i) => i,
        Err(e) => return Err(e),
    };
    let mut e = ledger.entries[i];
    e.account.data = new_data;
    replace_entry(ledger, i, e);
    Ok(())
}

/// Hands the record at `user_account` from the base context to the rollup.
/// Randomness requests are not stored by the program, so one that is still
/// pending neither blocks this nor is cancelled by it.
pub fn delegate(ledger: &mut Ledger, user: &Key, user_account: &Key) -> (r: Result<(), ErrorCode>)
    requires
        old(ledger).wf(),
    ensures
        final(ledger).wf(),
        r == owner_check(old(ledger), user@, user_account@, Context::Base),
        r is Ok ==> context_step(old(ledger), final(ledger), user_account@, Context::Rollup),
        r is Err ==> final(ledger).unchanged(old(ledger)),
{
    let i = match authorize_owner(ledger, user, user_account, Context::Base) {
        Ok(i) => i,
        Err(e) => return Err(e),
    };
    let mut e = ledger.entries[i];
    e.context = Context::Rollup;
    replace_entry(ledger, i, e);
    Ok(())
}

/// Hands the record at `user_account` from the rollup back to the base
/// context, with the state it has.
pub fn undelegate(ledger: &mut Ledger, user: &Key, user_account: &Key) -> (r: Result<(), ErrorCode>)
    requires
        old(ledger).wf(),
    ensures
        final(ledger).wf(),
        r == owner_check(old(ledger), user@, user_account@, Context::Rollup),
        r is Ok ==> context_step(old(ledger), final(ledger), user_account@, Context::Base),
        r is Err ==> final(ledger).unchanged(old(ledger)),
{
    let i = match authorize_owner(ledger, user, user_account, Context::Rollup) {
        Ok(i) => i,
        Err(e) => return Err(e),
    };
    let mut e = ledger.entries[i];
    e.context = Context::Base;
    replace_entry(ledger, i, e);
    Ok(())
}

/// Registers the recurring update `task_id` of the owner of the record at
/// `user_account`; each owner registers a task id once.
pub fn schedule(ledger: &mut Ledger, user: &Key, user_account: &Key, task_id: u16) -> (r: Result<(), ErrorCode>)
    requires
        old(ledger).wf(),
    ensures
        final(ledger).wf(),
        owner_check(old(ledger), user@, user_account@, Context::Base) is Err ==> r
            == owner_check(old(ledger), user@, user_account@, Context::Base),
        owner_check(old(ledger), user@, user_account@, Context::Base) is Ok ==> if old(ledger).has_task(
            user@,
            task_id,
        ) {
            r == Err::<(), ErrorCode>(ErrorCode::RecordAlreadyExists)
        } else {
            &&& r is Ok
            &&& final(ledger).entries@ == old(ledger).entries@
            &&& final(ledger).tasks@ == old(ledger).tasks@.push(ScheduledTask { owner: *user, task_id })
            &&& final(ledger).oracle_identity == old(ledger).oracle_identity
            &&& final(ledger).oracle_queue == old(ledger).oracle_queue
        },
        r is Ok ==> final(ledger).has_task(user@, task_id),
        r is Err ==> final(ledger).unchanged(old(ledger)),
{
    if let Err(e) = authorize_owner(ledger, user, user_account, Context::Base) {
        return Err(e);
    }
    if ledger.has_task_of(user, task_id) {
        return Err(ErrorCode::RecordAlreadyExists);
    }
    ledger.tasks.push(ScheduledTask { owner: *user, task_id });
    assert(ledger.tasks@[ledger.tasks@.len() - 1].owner@ == user@);
    Ok(())
}

/// The accounts of `close`: the signing owner and the record.
#[derive(Clone, Copy, Debug)]
pub struct CloseUser {
    pub user: Key,
    pub user_account: Key,
}

impl CloseUser {
    /// Destroys the record, which must be in the base context; its storage
    /// cost goes back to the owner.
    pub fn close(&self, ledger: &mut Ledger) -> (r: Result<(), ErrorCode>)
        requires
            old(ledger).wf(),
        ensures
            final(ledger).wf(),
            r == owner_check(old(ledger), self.user@, self.user_account@, Context::Base),
            r is Ok ==> final(ledger).same_but_entries(old(ledger)) && final(ledger).entries@
                == old(ledger).entries@.remove(old(ledger).index_of(self.user_account@)),
            r is Ok ==> !final(ledger).holds(self.user_account@),
            r is Err ==> final(ledger).unchanged(old(ledger)),
    {
        let i = match authorize_owner(ledger, &self.user, &self.user_account, Context::Base) {
            Ok(i) => i,
            Err(e) => return Err(e),
        };
        let ghost before = ledger.entries@;
        ledger.entries.remove(i);
        assert forall|j: int| 0 <= j < ledger.entries@.len() implies derives(
            #[trigger] ledger.entries@[j].address@,
            ledger.entries@[j].account.user@,
            ledger.entries@[j].account.bump,
        ) by {
            if j < i {
                assert(ledger.entries@[j] == before[j]);
            } else {
                assert(ledger.entries@[j] == before[j + 1]);
            }
        }
        assert forall|j: int, k: int|
            0 <= j < ledger.entries@.len() && 0 <= k < ledger.entries@.len()
                && #[trigger] ledger.entries@[j].address@ == #[trigger] ledger.entries@[k].address@ implies j == k by {
            let jj = if j < i { j } else { j + 1 };
            let kk = if k < i { k } else { k + 1 };
            assert(ledger.entries@[j] == before[jj]);
            assert(ledger.entries@[k] == before[kk]);
        }
        assert forall|j: int| 0 <= j < ledger.entries@.len() implies ledger.entries@[j].address@ != self.user_account@ by {
            let jj = if j < i { j } else { j + 1 };
            assert(ledger.entries@[j] == before[jj]);
            assert(before[i as int].address@ == self.user_account@);
        }
        Ok(())
    }
}

/// Destroys the record of the signing owner.
pub fn close(ledger: &mut Ledger, accounts: &CloseUser) -> (r: Result<(), ErrorCode>)
    requires
        old(ledger).wf(),
    ensures
        final(ledger).wf(),
        r == owner_check(old(ledger), accounts.user@, accounts.user_account@, Context::Base),
        r is Ok ==> final(ledger).same_but_entries(old(ledger)) && final(ledger).entries@
            == old(ledger).entries@.remove(old(ledger).index_of(accounts.user_account@)),
        r is Ok ==> !final(ledger).holds(accounts.user_account@),
        r is Err ==> final(ledger).unchanged(old(ledger)),
{
    accounts.close(ledger)
}

/// The accounts of `scheduled_update`: only the record, whose address is
/// checked against its own stored owner instead of a signature.
#[derive(Clone, Copy, Debug)]
pub struct ScheduledUpdate {
    pub user_account: Key,
}

impl ScheduledUpdate {
    /// Adds one to the data of the record, for any caller, in the context
    /// that holds the record.
    pub fn scheduled_update(&self, ledger: &mut Ledger, context: Context) -> (r: Result<(), ErrorCode>)
        requires
            old(ledger).wf(),
            old(ledger).holds(self.user_account@) ==> old(ledger).entry_at(self.user_account@).account.data
                < u64::MAX,
        ensures
            final(ledger).wf(),
            r == record_check(old(ledger), self.user_account@, context),
            r is Ok ==> data_step(
                old(ledger),
                final(ledger),
                self.user_account@,
                (old(ledger).entry_at(self.user_account@).account.data + 1) as u64,
            ),
            r is Err ==> final(ledger).unchanged(old(ledger)),
    {
        let i = match authorize_record(ledger, &self.user_account, context) {
            Ok(i) => i,
            Err(e) => return Err(e),
        };
        let mut e = ledger.entries[i];
        e.account.data = e.account.data + 1;
        replace_entry(ledger, i, e);
        Ok(())
    }
}

/// Adds one to the data of a record, without a signature.
pub fn scheduled_update(ledger: &mut Ledger, accounts: &ScheduledUpdate, context: Context) -> (r: Result<(), ErrorCode>)
    requires
        old(ledger).wf(),
        old(ledger).holds(accounts.user_account@) ==> old(ledger).entry_at(accounts.user_account@).account.data
            < u64::MAX,
    ensures
        final(ledger).wf(),
        r == record_check(old(ledger), accounts.user_account@, context),
        r is Ok ==> data_step(
                old(ledger),
                final(ledger),
                accounts.user_account@,
                (old(ledger).entry_at(accounts.user_account@).account.data + 1) as u64,
            ),
        r is Err ==> final(ledger).unchanged(old(ledger)),
{
    accounts.scheduled_update(ledger, context)
}

/// What a randomness request made for the record at `user_account` by
/// `user`, carrying `new_data`, holds.
pub open spec fn request_for(req: RandomnessRequest, user: Key, user_account: Key, queue: Key, new_data: u64) -> bool {
    &&& req.payer == user
    &&& req.oracle_queue == queue
    &&& req.callback_program_id@ == PROGRAM_ID@
    &&& req.callback_discriminator == CALLBACK_DISCRIMINATOR
    &&& req.caller_seed@ == seed_of(new_data)
    &&& req.accounts_metas@ == seq![
        CallbackAccount { pubkey: user_account, is_signer: false, is_writable: true },
    ]
}

/// What `update_commit` hands to the outside: the randomness request, and the
/// record as it is committed back to the base context.
#[derive(Debug)]
pub struct UpdateCommitOutcome {
    pub request: RandomnessRequest,
    pub committed: Entry,
}

/// The accounts of `update_commit`: the signing owner, the record and the
/// oracle's queue.
#[derive(Clone, Copy, Debug)]
pub struct UpdateCommit {
    pub user: Key,
    pub user_account: Key,
    pub oracle_queue: Key,
}

impl UpdateCommit {
    /// Inside the rollup, asks the oracle for randomness seeded with
    /// `new_data` and commits the record as it stands; the record itself is
    /// left as it is until the callback.
    pub fn update_commit(&self, ledger: &Ledger, new_data: u64) -> (r: Result<UpdateCommitOutcome, ErrorCode>)
        requires
            ledger.wf(),
        ensures
            owner_check(ledger, self.user@, self.user_account@, Context::Rollup) is Err ==> r
                == Err::<UpdateCommitOutcome, ErrorCode>(
                owner_check(ledger, self.user@, self.user_account@, Context::Rollup)->Err_0,
            ),
            owner_check(ledger, self.user@, self.user_account@, Context::Rollup) is Ok ==> if self.oracle_queue@
                != ledger.oracle_queue@ {
                r == Err::<UpdateCommitOutcome, ErrorCode>(ErrorCode::AddressMismatch)
            } else {
                &&& r is Ok
                &&& request_for(r->Ok_0.request, self.user, self.user_account, self.oracle_queue, new_data)
                &&& r->Ok_0.committed == ledger.entry_at(self.user_account@)
            },
    {
        let i = match authorize_owner(ledger, &self.user, &self.user_account, Context::Rollup) {
            Ok(i) => i,
            Err(e) => return Err(e),
        };
        if !self.oracle_queue.same(&ledger.oracle_queue) {
            return Err(ErrorCode::AddressMismatch);
        }
        let mut accounts_metas: Vec<CallbackAccount> = Vec::new();
        accounts_metas.push(CallbackAccount { pubkey: self.user_account, is_signer: false, is_writable: true });
        let request = RandomnessRequest {
            payer: self.user,
            oracle_queue: self.oracle_queue,
            callback_program_id: Key::new(PROGRAM_ID),
            callback_discriminator: CALLBACK_DISCRIMINATOR,
            caller_seed: caller_seed(new_data),
            accounts_metas,
        };
        assert(request.accounts_metas@ =~= seq![
            CallbackAccount { pubkey: self.user_account, is_signer: false, is_writable: true },
        ]);
        Ok(UpdateCommitOutcome { request, committed: ledger.entries[i] })
    }
}

/// Requests randomness for a delegated record and commits it.
pub fn update_commit(ledger: &Ledger, accounts: &UpdateCommit, new_data: u64) -> (r: Result<UpdateCommitOutcome, ErrorCode>)
    requires
        ledger.wf(),
    ensures
        owner_check(ledger, accounts.user@, accounts.user_account@, Context::Rollup) is Err ==> r
            == Err::<UpdateCommitOutcome, ErrorCode>(
            owner_check(ledger, accounts.user@, accounts.user_account@, Context::Rollup)->Err_0,
        ),
        owner_check(ledger, accounts.user@, accounts.user_account@, Context::Rollup) is Ok ==> if accounts.oracle_queue@
            != ledger.oracle_queue@ {
            r == Err::<UpdateCommitOutcome, ErrorCode>(ErrorCode::AddressMismatch)
        } else {
            &&& r is Ok
            &&& request_for(r->Ok_0.request, accounts.user, accounts.user_account, accounts.oracle_queue, new_data)
            &&& r->Ok_0.committed == ledger.entry_at(accounts.user_account@)
        },
{
    accounts.update_commit(ledger, new_data)
}

/// The outcome of the checks of the randomness callback.
pub open spec fn callback_check(l: &Ledger, signer: Seq<u8>, address: Seq<u8>, context: Context) -> Result<(), ErrorCode> {
    if signer != l.oracle_identity@ {
        Err(ErrorCode::UnauthorizedSigner)
    } else {
        record_check(l, address, context)
    }
}

/// The accounts of `callback_update_commit`: the signing oracle and the record.
#[derive(Clone, Copy, Debug)]
pub struct CallbackUpdateCommit {
    pub vrf_program_identity: Key,
    pub user_account: Key,
}

impl CallbackUpdateCommit {
    /// Signed by the oracle alone: sets the data of the record to the value
    /// read from the delivered randomness. A request has no expiry: its
    /// callback is accepted whenever it arrives, run in the context that then
    /// holds the record.
    pub fn callback_update_commit(&self, ledger: &mut Ledger, randomness: [u8; 32], context: Context) -> (r: Result<(), ErrorCode>)
        requires
            old(ledger).wf(),
        ensures
            final(ledger).wf(),
            r == callback_check(old(ledger), self.vrf_program_identity@, self.user_account@, context),
            r is Ok ==> data_step(old(ledger), final(ledger), self.user_account@, random_value_of(randomness@) as u64),
            r is Err ==> final(ledger).unchanged(old(ledger)),
    {
        if !self.vrf_program_identity.same(&ledger.oracle_identity) {
            return Err(ErrorCode::UnauthorizedSigner);
        }
        let i = match authorize_record(ledger, &self.user_account, context) {
            Ok(i) => i,
            Err(e) => return Err(e),
        };
        let mut e = ledger.entries[i];
        e.account.data = random_value(&randomness);
        replace_entry(ledger, i, e);
        Ok(())
    }
}

/// Delivers the oracle's randomness to a record.
pub fn callback_update_commit(ledger: &mut Ledger, accounts: &CallbackUpdateCommit, randomness: [u8; 32], context: Context) -> (r: Result<(), ErrorCode>)
    requires
        old(ledger).wf(),
    ensures
        final(ledger).wf(),
        r == callback_check(old(ledger), accounts.vrf_program_identity@, accounts.user_account@, context),
        r is Ok ==> data_step(old(ledger), final(ledger), accounts.user_account@, random_value_of(randomness@) as u64),
        r is Err ==> final(ledger).unchanged(old(ledger)),
{
    accounts.callback_update_commit(ledger, randomness, context)
}

} // verus!
