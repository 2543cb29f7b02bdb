use er_state_account::address::{find_user_address, verify_derived_authority, Key, PROGRAM_ID};
use er_state_account::instructions::{
    callback_update_commit, close, delegate, initialize, schedule, scheduled_update, undelegate, update,
    update_commit, CallbackUpdateCommit, CloseUser, ScheduledUpdate, UpdateCommit,
};
use er_state_account::randomness::{caller_seed, random_value, CALLBACK_DISCRIMINATOR};
use er_state_account::router::{process, Effect, Instruction};
use er_state_account::state::{Context, ErrorCode, Ledger, UserAccount};

fn key(b: u8) -> Key {
    Key::new([b; 32])
}

fn record(ledger: &Ledger, address: &Key) -> Option<(UserAccount, Context)> {
    ledger
        .entries
        .iter()
        .find(|e| e.address.bytes == address.bytes)
        .map(|e| (e.account, e.context))
}

fn data_of(ledger: &Ledger, address: &Key) -> u64 {
    record(ledger, address).unwrap().0.data
}

fn setup(owner: &Key) -> (Ledger, Key) {
    let mut ledger = Ledger::new();
    let address = initialize(&mut ledger, owner).unwrap();
    (ledger, address)
}

fn sample_randomness() -> [u8; 32] {
    let mut r = [0u8; 32];
    for (i, b) in r.iter_mut().enumerate() {
        *b = (i as u8).wrapping_mul(37).wrapping_add(11);
    }
    r
}

#[test]
fn initialize_creates_zeroed_record_at_derived_address() {
    let owner = key(7);
    let (ledger, address) = setup(&owner);
    let (account, context) = record(&ledger, &address).unwrap();
    assert_eq!(account.data, 0);
    assert_eq!(account.user.bytes, owner.bytes);
    assert_eq!(context, Context::Base);
    let (found, bump) = find_user_address(&owner).unwrap();
    assert_eq!(found.bytes, address.bytes);
    assert_eq!(bump, account.bump);
    assert!(verify_derived_authority(&owner, account.bump, &address));
    assert_eq!(UserAccount::INIT_SPACE, 49);
}

#[test]
fn initialize_twice_is_refused() {
    let owner = key(7);
    let (mut ledger, _) = setup(&owner);
    assert_eq!(initialize(&mut ledger, &owner), Err(ErrorCode::RecordAlreadyExists));
    assert_eq!(ledger.entries.len(), 1);
}

#[test]
fn distinct_owners_get_distinct_addresses() {
    let mut ledger = Ledger::new();
    let a = initialize(&mut ledger, &key(1)).unwrap();
    let b = initialize(&mut ledger, &key(2)).unwrap();
    assert_ne!(a.bytes, b.bytes);
    assert_ne!(a.bytes, key(1).bytes);
}

#[test]
fn derived_authority_rejects_other_owner_or_bump() {
    let owner = key(9);
    let (ledger, address) = setup(&owner);
    let bump = record(&ledger, &address).unwrap().0.bump;
    assert!(verify_derived_authority(&owner, bump, &address));
    assert!(!verify_derived_authority(&key(10), bump, &address));
    assert!(!verify_derived_authority(&owner, bump, &owner));
    assert!(!verify_derived_authority(&owner, bump.wrapping_sub(1), &address));
}

#[test]
fn update_by_owner_sets_data() {
    let owner = key(3);
    let (mut ledger, address) = setup(&owner);
    assert_eq!(update(&mut ledger, &owner, &address, 42), Ok(()));
    assert_eq!(data_of(&ledger, &address), 42);
}

#[test]
fn update_by_other_signer_is_unauthorized() {
    let owner = key(3);
    let (mut ledger, address) = setup(&owner);
    update(&mut ledger, &owner, &address, 5).unwrap();
    assert_eq!(update(&mut ledger, &key(4), &address, 99), Err(ErrorCode::UnauthorizedSigner));
    assert_eq!(data_of(&ledger, &address), 5);
}

#[test]
fn update_of_missing_record_is_not_found() {
    let mut ledger = Ledger::new();
    assert_eq!(update(&mut ledger, &key(3), &key(8), 1), Err(ErrorCode::RecordNotFound));
}

#[test]
fn update_while_delegated_is_wrong_context() {
    let owner = key(3);
    let (mut ledger, address) = setup(&owner);
    delegate(&mut ledger, &owner, &address).unwrap();
    assert_eq!(update(&mut ledger, &owner, &address, 1), Err(ErrorCode::InvalidContextForOperation));
    assert_eq!(data_of(&ledger, &address), 0);
}

#[test]
fn scheduled_update_counts_calls_from_anyone() {
    let owner = key(5);
    let (mut ledger, address) = setup(&owner);
    let crank = ScheduledUpdate { user_account: address };
    for _ in 0..5 {
        assert_eq!(scheduled_update(&mut ledger, &crank, Context::Base), Ok(()));
    }
    assert_eq!(data_of(&ledger, &address), 5);
    assert_eq!(crank.scheduled_update(&mut ledger, Context::Base), Ok(()));
    assert_eq!(data_of(&ledger, &address), 6);
}

#[test]
fn scheduled_update_refuses_missing_record_and_wrong_context() {
    let owner = key(5);
    let (mut ledger, address) = setup(&owner);
    let missing = ScheduledUpdate { user_account: key(6) };
    assert_eq!(scheduled_update(&mut ledger, &missing, Context::Base), Err(ErrorCode::RecordNotFound));
    let crank = ScheduledUpdate { user_account: address };
    assert_eq!(
        scheduled_update(&mut ledger, &crank, Context::Rollup),
        Err(ErrorCode::InvalidContextForOperation)
    );
    delegate(&mut ledger, &owner, &address).unwrap();
    assert_eq!(scheduled_update(&mut ledger, &crank, Context::Rollup), Ok(()));
    assert_eq!(data_of(&ledger, &address), 1);
}

#[test]
fn update_commit_issues_request_and_leaves_data() {
    let owner = key(12);
    let (mut ledger, address) = setup(&owner);
    update(&mut ledger, &owner, &address, 3).unwrap();
    delegate(&mut ledger, &owner, &address).unwrap();
    let accounts = UpdateCommit { user: owner, user_account: address, oracle_queue: ledger.oracle_queue };
    let out = update_commit(&ledger, &accounts, 0x0102_0304_0506_0708).unwrap();
    assert_eq!(data_of(&ledger, &address), 3);
    assert_eq!(out.committed.account.data, 3);
    assert_eq!(out.committed.address.bytes, address.bytes);
    let req = out.request;
    assert_eq!(req.payer.bytes, owner.bytes);
    assert_eq!(req.oracle_queue.bytes, ledger.oracle_queue.bytes);
    assert_eq!(req.callback_program_id.bytes, PROGRAM_ID);
    assert_eq!(req.callback_discriminator, CALLBACK_DISCRIMINATOR);
    let mut seed = [0u8; 32];
    seed[..8].copy_from_slice(&[8, 7, 6, 5, 4, 3, 2, 1]);
    assert_eq!(req.caller_seed, seed);
    assert_eq!(req.accounts_metas.len(), 1);
    assert_eq!(req.accounts_metas[0].pubkey.bytes, address.bytes);
    assert!(!req.accounts_metas[0].is_signer);
    assert!(req.accounts_metas[0].is_writable);
}

#[test]
fn update_commit_needs_rollup_owner_and_queue() {
    let owner = key(12);
    let (mut ledger, address) = setup(&owner);
    let accounts = UpdateCommit { user: owner, user_account: address, oracle_queue: ledger.oracle_queue };
    assert_eq!(
        update_commit(&ledger, &accounts, 1).err(),
        Some(ErrorCode::InvalidContextForOperation)
    );
    delegate(&mut ledger, &owner, &address).unwrap();
    let stranger = UpdateCommit { user: key(13), ..accounts };
    assert_eq!(update_commit(&ledger, &stranger, 1).err(), Some(ErrorCode::UnauthorizedSigner));
    let wrong_queue = UpdateCommit { oracle_queue: key(14), ..accounts };
    assert_eq!(update_commit(&ledger, &wrong_queue, 1).err(), Some(ErrorCode::AddressMismatch));
}

#[test]
fn callback_from_oracle_sets_little_endian_value() {
    let owner = key(20);
    let (mut ledger, address) = setup(&owner);
    delegate(&mut ledger, &owner, &address).unwrap();
    let r = sample_randomness();
    let accounts = CallbackUpdateCommit { vrf_program_identity: ledger.oracle_identity, user_account: address };
    assert_eq!(callback_update_commit(&mut ledger, &accounts, r, Context::Rollup), Ok(()));
    let expected = u64::from_le_bytes(r[0..8].try_into().unwrap());
    assert_eq!(data_of(&ledger, &address), expected);
    assert_eq!(accounts.callback_update_commit(&mut ledger, r, Context::Rollup), Ok(()));
    assert_eq!(data_of(&ledger, &address), expected);
}

#[test]
fn callback_from_other_signer_is_unauthorized() {
    let owner = key(20);
    let (mut ledger, address) = setup(&owner);
    delegate(&mut ledger, &owner, &address).unwrap();
    let accounts = CallbackUpdateCommit { vrf_program_identity: owner, user_account: address };
    assert_eq!(
        callback_update_commit(&mut ledger, &accounts, sample_randomness(), Context::Rollup),
        Err(ErrorCode::UnauthorizedSigner)
    );
    assert_eq!(data_of(&ledger, &address), 0);
}

#[test]
fn delegate_then_undelegate_keeps_data() {
    let owner = key(30);
    let (mut ledger, address) = setup(&owner);
    update(&mut ledger, &owner, &address, 77).unwrap();
    assert_eq!(delegate(&mut ledger, &owner, &address), Ok(()));
    assert_eq!(record(&ledger, &address).unwrap().1, Context::Rollup);
    assert_eq!(undelegate(&mut ledger, &owner, &address), Ok(()));
    let (account, context) = record(&ledger, &address).unwrap();
    assert_eq!(account.data, 77);
    assert_eq!(context, Context::Base);
}

#[test]
fn undelegate_of_resident_record_is_wrong_context() {
    let owner = key(30);
    let (mut ledger, address) = setup(&owner);
    assert_eq!(undelegate(&mut ledger, &owner, &address), Err(ErrorCode::InvalidContextForOperation));
    delegate(&mut ledger, &owner, &address).unwrap();
    assert_eq!(delegate(&mut ledger, &owner, &address), Err(ErrorCode::InvalidContextForOperation));
}

#[test]
fn close_removes_record_and_refuses_while_delegated() {
    let owner = key(40);
    let (mut ledger, address) = setup(&owner);
    let accounts = CloseUser { user: owner, user_account: address };
    delegate(&mut ledger, &owner, &address).unwrap();
    assert_eq!(close(&mut ledger, &accounts), Err(ErrorCode::InvalidContextForOperation));
    undelegate(&mut ledger, &owner, &address).unwrap();
    let other = CloseUser { user: key(41), user_account: address };
    assert_eq!(other.close(&mut ledger), Err(ErrorCode::UnauthorizedSigner));
    assert_eq!(close(&mut ledger, &accounts), Ok(()));
    assert!(record(&ledger, &address).is_none());
    assert_eq!(initialize(&mut ledger, &owner).map(|k| k.bytes), Ok(address.bytes));
}

#[test]
fn schedule_registers_each_task_once() {
    let owner = key(50);
    let (mut ledger, address) = setup(&owner);
    assert_eq!(schedule(&mut ledger, &owner, &address, 1), Ok(()));
    assert_eq!(schedule(&mut ledger, &owner, &address, 2), Ok(()));
    assert_eq!(schedule(&mut ledger, &owner, &address, 1), Err(ErrorCode::RecordAlreadyExists));
    assert_eq!(schedule(&mut ledger, &key(51), &address, 3), Err(ErrorCode::UnauthorizedSigner));
    assert_eq!(ledger.tasks.len(), 2);
    assert!(ledger.has_task_of(&owner, 2));
    assert!(!ledger.has_task_of(&owner, 3));
}

#[test]
fn random_value_reads_first_eight_bytes() {
    let mut r = [0xffu8; 32];
    r[..8].copy_from_slice(&[1, 2, 3, 4, 5, 6, 7, 8]);
    assert_eq!(random_value(&r), 0x0807_0605_0403_0201);
    assert_eq!(random_value(&[0u8; 32]), 0);
    let mut top = [0u8; 32];
    top[..8].copy_from_slice(&[0xff; 8]);
    assert_eq!(random_value(&top), u64::MAX);
}

#[test]
fn caller_seed_is_value_then_zeros() {
    let s = caller_seed(0x1122_3344_5566_7788);
    assert_eq!(&s[..8], &[0x88, 0x77, 0x66, 0x55, 0x44, 0x33, 0x22, 0x11]);
    assert!(s[8..].iter().all(|b| *b == 0));
    assert_eq!(caller_seed(u64::MAX)[..8], [0xff; 8]);
}

#[test]
fn keys_compare_bytewise() {
    let a = key(1);
    let mut b = key(1);
    assert!(a.same(&b));
    b.bytes[31] = 2;
    assert!(!a.same(&b));
}

#[test]
fn router_dispatches_each_instruction() {
    let owner = key(60);
    let mut ledger = Ledger::new();
    let address = match process(&mut ledger, Instruction::Initialize { user: owner }, Context::Base) {
        Ok(Effect::Created(k)) => k,
        _ => panic!("record not created"),
    };
    let ix = Instruction::Update { user: owner, user_account: address, new_data: 9 };
    assert!(matches!(process(&mut ledger, ix, Context::Base), Ok(Effect::Done)));
    assert_eq!(data_of(&ledger, &address), 9);
    let ix = Instruction::ScheduledUpdate { accounts: ScheduledUpdate { user_account: address } };
    assert!(matches!(process(&mut ledger, ix, Context::Base), Ok(Effect::Done)));
    assert_eq!(data_of(&ledger, &address), 10);
    let ix = Instruction::Delegate { user: owner, user_account: address };
    assert!(process(&mut ledger, ix, Context::Base).is_ok());
    let accounts = UpdateCommit { user: owner, user_account: address, oracle_queue: ledger.oracle_queue };
    let ix = Instruction::UpdateCommit { accounts, new_data: 1 };
    assert!(matches!(process(&mut ledger, ix, Context::Rollup), Ok(Effect::Requested(_))));
    let ix = Instruction::Schedule { user: owner, user_account: address, task_id: 4 };
    assert!(matches!(
        process(&mut ledger, ix, Context::Base),
        Err(ErrorCode::InvalidContextForOperation)
    ));
    let ix = Instruction::Undelegate { user: owner, user_account: address };
    assert!(process(&mut ledger, ix, Context::Rollup).is_ok());
    let ix = Instruction::Close { accounts: CloseUser { user: owner, user_account: address } };
    assert!(process(&mut ledger, ix, Context::Base).is_ok());
    assert!(ledger.entries.is_empty());
}

#[test]
fn full_lifecycle_scenario() {
    let owner = key(70);
    let mut ledger = Ledger::new();
    let address = initialize(&mut ledger, &owner).unwrap();
    assert_eq!(data_of(&ledger, &address), 0);

    let crank = ScheduledUpdate { user_account: address };
    for _ in 0..3 {
        scheduled_update(&mut ledger, &crank, Context::Base).unwrap();
    }
    assert_eq!(data_of(&ledger, &address), 3);

    delegate(&mut ledger, &owner, &address).unwrap();

    let accounts = UpdateCommit { user: owner, user_account: address, oracle_queue: ledger.oracle_queue };
    let out = update_commit(&ledger, &accounts, 7).unwrap();
    assert_eq!(out.request.caller_seed[0], 7);
    assert_eq!(data_of(&ledger, &address), 3);

    let r = sample_randomness();
    let oracle = CallbackUpdateCommit { vrf_program_identity: ledger.oracle_identity, user_account: address };
    callback_update_commit(&mut ledger, &oracle, r, Context::Rollup).unwrap();
    let expected = u64::from_le_bytes(r[0..8].try_into().unwrap());
    assert_eq!(data_of(&ledger, &address), expected);

    undelegate(&mut ledger, &owner, &address).unwrap();
    assert_eq!(data_of(&ledger, &address), expected);

    close(&mut ledger, &CloseUser { user: owner, user_account: address }).unwrap();
    assert_eq!(update(&mut ledger, &owner, &address, 1), Err(ErrorCode::RecordNotFound));
}
