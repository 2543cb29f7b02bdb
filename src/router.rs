//! The single entry point that maps each instruction to its handler.

use crate::address::{found_address, user_seeds, Key, PROGRAM_ID};
use crate::instructions::{
    callback_update_commit, close, context_step, data_step, delegate, initialize, owner_check, record_check,
    callback_check, scheduled_update, schedule, undelegate, update, update_commit, CallbackUpdateCommit, CloseUser,
    ScheduledUpdate, UpdateCommit, UpdateCommitOutcome,
};
use crate::randomness::random_value_of;
use crate::state::{Context, ErrorCode, Ledger};
use vstd::prelude::*;

verus! {

/// An instruction with its accounts and arguments.
pub enum Instruction {
    Initialize { user: Key },
    Update { user: Key, user_account: Key, new_data: u64 },
    UpdateCommit { accounts: UpdateCommit, new_data: u64 },
    CallbackUpdateCommit { accounts: CallbackUpdateCommit, randomness: [u8; 32] },
    Delegate { user: Key, user_account: Key },
    Undelegate { user: Key, user_account: Key },
    Close { accounts: CloseUser },
    ScheduledUpdate { accounts: ScheduledUpdate },
    Schedule { user: Key, user_account: Key, task_id: u16 },
}

/// What a processed instruction hands back.
pub enum Effect {
    /// A record was created at this address.
    Created(Key),
    /// A randomness request was issued and the record committed.
    Requested(UpdateCommitOutcome),
    /// The ledger was changed as the instruction says.
    Done,
}

/// Runs `ix` in `context` against the ledger, all or nothing.
pub fn process(ledger: &mut Ledger, ix: Instruction, context: Context) -> (r: Result<Effect, ErrorCode>)
    requires
        old(ledger).wf(),
        ix matches Instruction::ScheduledUpdate { accounts } ==> (old(ledger).holds(accounts.user_account@)
            ==> old(ledger).entry_at(accounts.user_account@).account.data < u64::MAX),
    ensures
        final(ledger).wf(),
        r is Err ==> final(ledger).unchanged(old(ledger)),
        match ix {
            Instruction::Initialize { user } => {
                &&& r is Err <==> match found_address(user_seeds(user@), PROGRAM_ID@) {
                    None => true,
                    Some(p) => old(ledger).holds(p.0),
                }
                &&& r is Ok ==> {
                    &&& r->Ok_0 is Created
                    &&& final(ledger).holds(r->Ok_0->Created_0@)
                    &&& final(ledger).entry_at(r->Ok_0->Created_0@).account.data == 0
                    &&& final(ledger).entry_at(r->Ok_0->Created_0@).account.user == user
                }
            },
            Instruction::Update { user, user_account, new_data } => {
                &&& r is Err <==> owner_check(old(ledger), user@, user_account@, Context::Base) is Err
                &&& r is Err ==> r->Err_0 == owner_check(old(ledger), user@, user_account@, Context::Base)->Err_0
                &&& r is Ok ==> data_step(old(ledger), final(ledger), user_account@, new_data)
            },
            Instruction::UpdateCommit { accounts, new_data } => {
                &&& r is Err <==> (owner_check(old(ledger), accounts.user@, accounts.user_account@, Context::Rollup) is Err
                    || accounts.oracle_queue@ != old(ledger).oracle_queue@)
                &&& r is Ok ==> r->Ok_0 is Requested
                &&& final(ledger).unchanged(old(ledger))
            },
            Instruction::CallbackUpdateCommit { accounts, randomness } => {
                &&& r is Err <==> callback_check(
                    old(ledger),
                    accounts.vrf_program_identity@,
                    accounts.user_account@,
                    context,
                ) is Err
                &&& r is Err ==> r->Err_0 == callback_check(
                    old(ledger),
                    accounts.vrf_program_identity@,
                    accounts.user_account@,
                    context,
                )->Err_0
                &&& r is Ok ==> data_step(
                    old(ledger),
                    final(ledger),
                    accounts.user_account@,
                    random_value_of(randomness@) as u64,
                )
            },
            Instruction::Delegate { user, user_account } => {
                &&& r is Err <==> owner_check(old(ledger), user@, user_account@, Context::Base) is Err
                &&& r is Err ==> r->Err_0 == owner_check(old(ledger), user@, user_account@, Context::Base)->Err_0
                &&& r is Ok ==> context_step(old(ledger), final(ledger), user_account@, Context::Rollup)
            },
            Instruction::Undelegate { user, user_account } => {
                &&& r is Err <==> owner_check(old(ledger), user@, user_account@, Context::Rollup) is Err
                &&& r is Err ==> r->Err_0 == owner_check(old(ledger), user@, user_account@, Context::Rollup)->Err_0
                &&& r is Ok ==> context_step(old(ledger), final(ledger), user_account@, Context::Base)
            },
            Instruction::Close { accounts } => {
                &&& r is Err <==> owner_check(old(ledger), accounts.user@, accounts.user_account@, Context::Base) is Err
                &&& r is Err ==> r->Err_0 == owner_check(old(ledger), accounts.user@, accounts.user_account@, Context::Base)->Err_0
                &&& r is Ok ==> !final(ledger).holds(accounts.user_account@)
            },
            Instruction::ScheduledUpdate { accounts } => {
                &&& r is Err <==> record_check(old(ledger), accounts.user_account@, context) is Err
                &&& r is Err ==> r->Err_0 == record_check(old(ledger), accounts.user_account@, context)->Err_0
                &&& r is Ok ==> data_step(
                    old(ledger),
                    final(ledger),
                    accounts.user_account@,
                    (old(ledger).entry_at(accounts.user_account@).account.data + 1) as u64,
                )
            },
            Instruction::Schedule { user, user_account, task_id } => {
                &&& r is Err <==> (owner_check(old(ledger), user@, user_account@, Context::Base) is Err
                    || old(ledger).has_task(user@, task_id))
                &&& r is Ok ==> final(ledger).has_task(user@, task_id)
                &&& r is Ok ==> final(ledger).entries@ == old(ledger).entries@
            },
        },
{
    match ix {
        Instruction::Initialize { user } => match initialize(ledger, &user) {
            Ok(k) => Ok(Effect::Created(k)),
            Err(e) => Err(e),
        },
        Instruction::Update { user, user_account, new_data } => match update(ledger, &user, &user_account, new_data) {
            Ok(()) => Ok(Effect::Done),
            Err(e) => Err(e),
        },
        Instruction::UpdateCommit { accounts, new_data } => match update_commit(ledger, &accounts, new_data) {
            Ok(out) => Ok(Effect::Requested(out)),
            Err(e) => Err(e),
        },
        Instruction::CallbackUpdateCommit { accounts, randomness } => match callback_update_commit(
            ledger,
            &accounts,
            randomness,
            context,
        ) {
            Ok(()) => Ok(Effect::Done),
            Err(e) => Err(e),
        },
        Instruction::Delegate { user, user_account } => match delegate(ledger, &user, &user_account) {
            Ok(()) => Ok(Effect::Done),
            Err(e) => Err(e),
        },
        Instruction::Undelegate { user, user_account } => match undelegate(ledger, &user, &user_account) {
            Ok(()) => Ok(Effect::Done),
            Err(e) => Err(e),
        },
        Instruction::Close { accounts } => match close(ledger, &accounts) {
            Ok(()) => Ok(Effect::Done),
            Err(e) => Err(e),
        },
        Instruction::ScheduledUpdate { accounts } => match scheduled_update(ledger, &accounts, context) {
            Ok(()) => Ok(Effect::Done),
            Err(e) => Err(e),
        },
        Instruction::Schedule { user, user_account, task_id } => match schedule(ledger, &user, &user_account, task_id) {
            Ok(()) => Ok(Effect::Done),
            Err(e) => Err(e),
        },
    }
}

} // verus!
