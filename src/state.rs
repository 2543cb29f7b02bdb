//! The record, the storage that holds the records of both execution
//! contexts, and the errors of the program.

use crate::address::{derives, Key};
use crate::randomness::{default_ephemeral_queue, vrf_program_identity};
use vstd::prelude::*;

verus! {

/// Why an instruction was refused. A refused instruction changes nothing.
#[derive(Clone, Copy, Debug, PartialEq, Eq, Structural)]
pub enum ErrorCode {
    AddressMismatch,
    UnauthorizedSigner,
    RecordAlreadyExists,
    RecordNotFound,
    InvalidContextForOperation,
}

/// The execution context that currently holds a record's authoritative state.
#[derive(Clone, Copy, Debug, PartialEq, Eq, Structural)]
pub enum Context {
    Base,
    Rollup,
}

/// The persisted record: its owner, its value and the bump of its address.
#[derive(Clone, Copy, Debug)]
pub struct UserAccount {
    pub user: Key,
    pub data: u64,
    pub bump: u8,
}

impl UserAccount {
    /// Bytes the record takes in storage: owner, data, bump and type tag.
    pub const INIT_SPACE: usize = 49;
}

/// A record at its address, with the context that holds it.
#[derive(Clone, Copy, Debug)]
pub struct Entry {
    pub address: Key,
    pub account: UserAccount,
    pub context: Context,
}

/// A recurring update registered with the scheduler.
#[derive(Clone, Copy, Debug)]
pub struct ScheduledTask {
    pub owner: Key,
    pub task_id: u16,
}

/// The storage of both contexts, as seen by this program.
pub struct Ledger {
    pub entries: Vec<Entry>,
    pub tasks: Vec<ScheduledTask>,
    /// The identity that alone may deliver randomness.
    pub oracle_identity: Key,
    /// The queue that randomness requests are addressed to.
    pub oracle_queue: Key,
}

impl Entry {
    pub open spec fn with_data(self, data: u64) -> Entry {
        Entry { account: UserAccount { data, ..self.account }, ..self }
    }

    pub open spec fn with_context(self, context: Context) -> Entry {
        Entry { context, ..self }
    }
}

impl Ledger {
    /// Empty storage, with the oracle's identity and queue.
    pub fn new() -> (r: Ledger)
        ensures
            r.wf(),
            r.entries@.len() == 0,
            r.tasks@.len() == 0,
    {
        Ledger {
            entries: Vec::new(),
            tasks: Vec::new(),
            oracle_identity: vrf_program_identity(),
            oracle_queue: default_ephemeral_queue(),
        }
    }

    /// Whether `self` and `other` hold the same state.
    pub open spec fn unchanged(&self, other: &Ledger) -> bool {
        &&& self.entries@ == other.entries@
        &&& self.tasks@ == other.tasks@
        &&& self.oracle_identity == other.oracle_identity
        &&& self.oracle_queue == other.oracle_queue
    }

    /// Whether `self` is `other` with only its records changed.
    pub open spec fn same_but_entries(&self, other: &Ledger) -> bool {
        &&& self.tasks@ == other.tasks@
        &&& self.oracle_identity == other.oracle_identity
        &&& self.oracle_queue == other.oracle_queue
    }

    /// Whether a record is stored at `address`.
    pub open spec fn holds(&self, address: Seq<u8>) -> bool {
        exists|i: int| 0 <= i < self.entries@.len() && self.entries@[i].address@ == address
    }

    /// The position of the record stored at `address`.
    pub open spec fn index_of(&self, address: Seq<u8>) -> int {
        choose|i: int| 0 <= i < self.entries@.len() && self.entries@[i].address@ == address
    }

    /// The record stored at `address`.
    pub open spec fn entry_at(&self, address: Seq<u8>) -> Entry {
        self.entries@[self.index_of(address)]
    }

    /// Whether a task keyed by `owner` and `task_id` is registered.
    pub open spec fn has_task(&self, owner: Seq<u8>, task_id: u16) -> bool {
        exists|i: int|
            0 <= i < self.tasks@.len() && self.tasks@[i].owner@ == owner && self.tasks@[i].task_id
                == task_id
    }

    /// One record per address, each at the address that re-derives from its
    /// own owner and bump.
    pub open spec fn wf(&self) -> bool {
        &&& forall|i: int, j: int|
            0 <= i < self.entries@.len() && 0 <= j < self.entries@.len()
                && #[trigger] self.entries@[i].address@ == #[trigger] self.entries@[j].address@
                ==> i == j
        &&& forall|i: int|
            0 <= i < self.entries@.len() ==> derives(
                #[trigger] self.entries@[i].address@,
                self.entries@[i].account.user@,
                self.entries@[i].account.bump,
            )
    }

    /// Whether a task keyed by `owner` and `task_id` is registered.
    pub fn has_task_of(&self, owner: &Key, task_id: u16) -> (r: bool)
        ensures
            r == self.has_task(owner@, task_id),
    {
        let mut i: usize = 0;
        while i < self.tasks.len()
            invariant
                i <= self.tasks@.len(),
                forall|j: int|
                    0 <= j < i ==> !(self.tasks@[j].owner@ == owner@ && self.tasks@[j].task_id == task_id),
            decreases self.tasks@.len() - i,
        {
            let t = self.tasks[i];
            if t.task_id == task_id && t.owner.same(owner) {
                return true;
            }
            i = i + 1;
        }
        false
    }

    /// Where the record at `address` is, if anywhere.
    pub fn find(&self, address: &Key) -> (r: Option<usize>)
        requires
            self.wf(),
        ensures
            match r {
                Some(i) => self.holds(address@) && i as int == self.index_of(address@)
                    && i < self.entries@.len(),
                None => !self.holds(address@),
            },
    {
        let mut i: usize = 0;
        while i < self.entries.len()
            invariant
                self.wf(),
                i <= self.entries@.len(),
                forall|j: int| 0 <= j < i ==> self.entries@[j].address@ != address@,
            decreases self.entries@.len() - i,
        {
            if self.entries[i].address.same(address) {
                proof {
                    assert(self.entries@[i as int].address@ == address@);
                    assert(self.holds(address@));
                    let k = self.index_of(address@);
                    assert(self.entries@[k].address@ == address@);
                    assert(k == i as int);
                }
                return Some(i);
            }
            i = i + 1;
        }
        None
    }
}

} // verus!
