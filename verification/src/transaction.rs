//! The outcome of a validated request: the invocations that the host has to
//! perform, in order, and the records to write once all of them succeeded.

use vstd::prelude::*;
use crate::account::{Account, AccountView};
use crate::error::AirdropError;
use crate::service::{Instruction, InstructionView};
use crate::state::{AirdropConfig, AirdropUserData};

verus! {

/// One invocation of another program.
#[derive(Clone, Debug)]
pub struct Invocation {
    /// What the other program is asked to do.
    pub instruction: Instruction,
    /// The accounts handed to it, by their position in the request.
    pub accounts: Vec<usize>,
    /// The seeds of the derived address in whose name the program signs the
    /// invocation; empty where the signers of the request suffice.
    pub signer_seeds: Vec<Vec<u8>>,
}

/// Model of an invocation.
pub struct InvocationView {
    pub instruction: InstructionView,
    pub accounts: Seq<usize>,
    pub signer_seeds: Seq<Seq<u8>>,
}

impl View for Invocation {
    type V = InvocationView;

    open spec fn view(&self) -> InvocationView {
        InvocationView {
            instruction: self.instruction@,
            accounts: self.accounts@,
            signer_seeds: self.signer_seeds.deep_view(),
        }
    }
}

/// A record to store.
#[derive(Clone, Copy, Debug)]
pub enum Record {
    Config(AirdropConfig),
    UserData(AirdropUserData),
}

/// A record and the account that is to store it, by its position in the
/// request.
#[derive(Clone, Copy, Debug)]
pub struct AccountWrite {
    pub account: usize,
    pub record: Record,
}

/// What a validated request asks of the host.
#[derive(Clone, Debug)]
pub struct Transaction {
    /// The invocations, in the order in which they are performed.
    pub invocations: Vec<Invocation>,
    /// The writes that follow the last invocation.
    pub writes: Vec<AccountWrite>,
}

/// Model of a transaction.
pub struct TransactionView {
    pub invocations: Seq<InvocationView>,
    pub writes: Seq<AccountWrite>,
}

impl View for Transaction {
    type V = TransactionView;

    open spec fn view(&self) -> TransactionView {
        TransactionView {
            invocations: Seq::new(self.invocations@.len(), |i: int| self.invocations@[i]@),
            writes: self.writes@,
        }
    }
}

/// The model of the outcome of planning a request.
pub open spec fn outcome_view(r: Result<Transaction, AirdropError>) -> Result<
    TransactionView,
    AirdropError,
> {
    match r {
        Ok(transaction) => Ok(transaction@),
        Err(e) => Err(e),
    }
}

/// What the host does next.
#[derive(Clone, Copy, Debug, PartialEq, Eq, Structural)]
pub enum Step {
    /// Perform the invocation with this index.
    Invoke(usize),
    /// Every invocation succeeded: write the records.
    Commit,
    /// An invocation failed: write nothing.
    Abort,
}

/// The bytes that store a record.
pub open spec fn record_bytes(record: Record) -> Seq<u8> {
    match record {
        Record::Config(config) => config.packed(),
        Record::UserData(user_data) => user_data.packed(),
    }
}

/// The length of the storage of a record.
pub open spec fn record_len(record: Record) -> nat {
    match record {
        Record::Config(_) => 169,
        Record::UserData(_) => 81,
    }
}

/// Whether a write names an account of the request whose storage has the
/// length of the record.
pub open spec fn write_fits(accounts: Seq<Account>, write: AccountWrite) -> bool {
    &&& write.account < accounts.len()
    &&& accounts[write.account as int].data@.len() == record_len(write.record)
}

/// Whether every write fits.
pub open spec fn writes_fit(accounts: Seq<Account>, writes: Seq<AccountWrite>) -> bool {
    forall|i: int| 0 <= i < writes.len() ==> write_fits(accounts, #[trigger] writes[i])
}

/// The storage of the account at a position after the writes: what the last
/// write to it stored, or what it held before.
pub open spec fn data_after(writes: Seq<AccountWrite>, account: int, before: Seq<u8>) -> Seq<u8>
    decreases writes.len(),
{
    if writes.len() == 0 {
        before
    } else if writes.last().account == account {
        record_bytes(writes.last().record)
    } else {
        data_after(writes.drop_last(), account, before)
    }
}

/// Whether `after` is `before` with the writes applied and nothing else
/// changed.
pub open spec fn written(
    before: Seq<Account>,
    writes: Seq<AccountWrite>,
    after: Seq<Account>,
) -> bool {
    &&& after.len() == before.len()
    &&& forall|j: int|
        0 <= j < before.len() ==> (#[trigger] after[j])@ == (AccountView {
            data: data_after(writes, j, before[j].data@),
            ..before[j]@
        })
}

/// The step that follows when `completed` invocations of `invocations` have
/// succeeded and the last one ended as `last_succeeded` says.
pub open spec fn step_after(invocations: nat, completed: nat, last_succeeded: bool) -> Step {
    if !last_succeeded {
        Step::Abort
    } else if completed < invocations {
        Step::Invoke(completed as usize)
    } else {
        Step::Commit
    }
}

/// The bytes that store a record of either kind.
fn record_to_bytes(record: &Record) -> (bytes: Vec<u8>)
    ensures
        bytes@ == record_bytes(*record),
        bytes@.len() == record_len(*record),
{
    match record {
        Record::Config(config) => config.to_bytes(),
        Record::UserData(user_data) => user_data.to_bytes(),
    }
}

impl Transaction {
    /// Tells the host what to do next: the first invocation that has not
    /// succeeded yet, the commit after the last one, or nothing more once an
    /// invocation has failed. To begin, `completed` is 0 and
    /// `last_succeeded` is true.
    pub fn next_step(&self, completed: usize, last_succeeded: bool) -> (step: Step)
        ensures
            step == step_after(self@.invocations.len(), completed as nat, last_succeeded),
            step is Commit ==> last_succeeded && completed >= self@.invocations.len(),
            step matches Step::Invoke(i) ==> last_succeeded && i == completed
                && i < self@.invocations.len(),
    {
        if !last_succeeded {
            Step::Abort
        } else if completed < self.invocations.len() {
            Step::Invoke(completed)
        } else {
            Step::Commit
        }
    }

    /// Stores the records of the transaction in the accounts, all of them or
    /// none: where a write does not fit, nothing is changed.
    pub fn commit(&self, accounts: &mut Vec<Account>) -> (r: Result<(), AirdropError>)
        ensures
            writes_fit(old(accounts)@, self@.writes) ==> r is Ok && written(
                old(accounts)@,
                self@.writes,
                final(accounts)@,
            ),
            !writes_fit(old(accounts)@, self@.writes) ==> r == Err::<(), AirdropError>(
                AirdropError::InvalidAccountData,
            ) && final(accounts)@ == old(accounts)@,
    {
        let count = self.writes.len();
        let mut i: usize = 0;
        while i < count
            invariant
                i <= count == self.writes@.len(),
                accounts@ == old(accounts)@,
                forall|k: int| 0 <= k < i ==> write_fits(accounts@, #[trigger] self.writes@[k]),
            decreases count - i,
        {
            let write = &self.writes[i];
            let fits = write.account < accounts.len() && accounts[write.account].data.len() == (
            match write.record {
                Record::Config(_) => AirdropConfig::LEN,
                Record::UserData(_) => AirdropUserData::LEN,
            });
            if !fits {
                assert(!write_fits(accounts@, self.writes@[i as int]));
                return Err(AirdropError::InvalidAccountData);
            }
            i += 1;
        }
        let mut i: usize = 0;
        while i < count
            invariant
                i <= count == self.writes@.len(),
                writes_fit(old(accounts)@, self.writes@),
                accounts@.len() == old(accounts)@.len(),
                forall|j: int|
                    0 <= j < accounts@.len() ==> (#[trigger] accounts@[j]).data@.len() == old(
                        accounts,
                    )@[j].data@.len(),
                written(old(accounts)@, self.writes@.take(i as int), accounts@),
            decreases count - i,
        {
            let write = &self.writes[i];
            assert(write_fits(old(accounts)@, self.writes@[i as int]));
            let target = &accounts[write.account];
            let stored = Account {
                key: target.key,
                owner: target.owner,
                is_signer: target.is_signer,
                is_writable: target.is_writable,
                lamports: target.lamports,
                data: record_to_bytes(&write.record),
            };
            let ghost before = accounts@;
            accounts.set(write.account, stored);
            proof {
                let done = self.writes@.take(i as int);
                let next = self.writes@.take(i + 1);
                assert(next.drop_last() =~= done);
                assert(next.last() == self.writes@[i as int]);
                assert forall|j: int| 0 <= j < accounts@.len() implies (#[trigger] accounts@[j])@
                    == (AccountView {
                    data: data_after(next, j, old(accounts)@[j].data@),
                    ..old(accounts)@[j]@
                }) by {
                    if j != write.account {
                        assert(accounts@[j] == before[j]);
                    }
                }
            }
            i += 1;
        }
        assert(self.writes@.take(count as int) =~= self.writes@);
        Ok(())
    }
}

} // verus!
