//! The executor: an account ledger with deployment, committing transactions
//! and read-only calls.

use vstd::prelude::*;
use crate::dispatch::{
    balance_in, call_result, deploy_result, is_dispatch_error, ledger_with_account, Backend,
};
use crate::error::EvmError;
use crate::ledger::{empty_ledger, AccountEntry};
use crate::primitives::{Address, U256};
use crate::transaction::{ExecutionOutcome, Log, TxEnv};

verus! {

/// Runs transactions against an in-memory ledger of accounts.
pub struct Executor {
    backend: Backend,
}

impl Executor {
    /// The entries of the ledger: for each address with an entry, whether it
    /// stands for an existing account, and its balance.
    pub closed spec fn ledger(&self) -> Map<Seq<u8>, AccountEntry> {
        self.backend@
    }

    /// The balance of an address: zero where there is no account.
    pub open spec fn balance_of(&self, address: Address) -> nat {
        balance_in(self.ledger(), address@)
    }

    /// What the interpreter makes of a transaction that runs against the
    /// ledger as it stands: how the execution ends, or `BackendFailure` where
    /// the interpreter refuses the transaction.
    pub closed spec fn outcome(&self, tx: TxEnv) -> Result<ExecutionOutcome, EvmError> {
        self.backend.outcome(tx)
    }

    /// What a transaction changes in the ledger once it is committed: for
    /// each address whose account the execution touches, the entry that it
    /// leaves.
    pub closed spec fn changes(&self, tx: TxEnv) -> Map<Seq<u8>, AccountEntry> {
        self.backend.changes(tx)
    }

    /// An executor whose ledger holds no account.
    pub fn new() -> (executor: Executor)
        ensures
            executor.ledger() == empty_ledger(),
            forall|address: Address| executor.balance_of(address) == 0,
    {
        Executor { backend: Backend::new() }
    }

    /// Creates an account with an optional balance; without one the balance
    /// is zero. An account that is there is replaced: it gets the balance, and
    /// its nonce and code are gone. Never fails.
    pub fn create_account(&mut self, address: Address, balance: Option<U256>) -> (r: Result<
        (),
        EvmError,
    >)
        ensures
            r is Ok,
            final(self).ledger() == ledger_with_account(
                old(self).ledger(),
                address@,
                match balance {
                    Some(amount) => amount@,
                    None => 0,
                },
            ),
            final(self).balance_of(address) == match balance {
                Some(amount) => amount@,
                None => 0,
            },
            forall|other: Address|
                other@ != address@ ==> final(self).balance_of(other) == old(self).balance_of(other),
    {
        let amount = match balance {
            Some(amount) => amount,
            None => U256::zero(),
        };
        self.backend.create_account(address, amount);
        Ok(())
    }

    /// Get the balance for the given address: zero for one without an
    /// account. The ledger does not change.
    pub fn get_balance(&mut self, address: Address) -> (balance: U256)
        ensures
            balance@ == old(self).balance_of(address),
            final(self).ledger() == old(self).ledger(),
    {
        self.backend.balance(address)
    }

    /// Deploys a contract: runs the transaction and hands back the address of
    /// the created contract with the gas used. What the deployment changed is
    /// committed; a deployment that fails leaves the ledger as it was.
    pub fn deploy(&mut self, tx: TxEnv) -> (r: Result<(Address, u64), EvmError>)
        ensures
            r == deploy_result(old(self).outcome(tx)),
            r is Ok ==> final(self).ledger() == old(self).ledger().union_prefer_right(
                old(self).changes(tx),
            ),
            r is Err ==> *final(self) == *old(self),
            r is Err ==> final(self).ledger() == old(self).ledger(),
            r matches Err(e) ==> is_dispatch_error(e),
    {
        self.backend.deploy(&tx)
    }

    /// Write transaction: runs it and hands back the returned bytes, the gas
    /// used and the events. What the transaction changed is committed; one
    /// that fails leaves the ledger as it was.
    pub fn transact(&mut self, tx: TxEnv) -> (r: Result<(Vec<u8>, u64, Vec<Log>), EvmError>)
        ensures
            r == call_result(old(self).outcome(tx)),
            r is Ok ==> final(self).ledger() == old(self).ledger().union_prefer_right(
                old(self).changes(tx),
            ),
            r is Err ==> *final(self) == *old(self),
            r is Err ==> final(self).ledger() == old(self).ledger(),
            r matches Err(e) ==> is_dispatch_error(e),
    {
        self.backend.transact(&tx)
    }

    /// Read call: runs the transaction against the ledger as it stands and
    /// commits nothing, so that the ledger is the same afterwards whether the
    /// call succeeded, reverted or halted.
    pub fn call(&mut self, tx: TxEnv) -> (r: Result<(Vec<u8>, u64, Vec<Log>), EvmError>)
        ensures
            r == call_result(old(self).outcome(tx)),
            *final(self) == *old(self),
            final(self).ledger() == old(self).ledger(),
            r matches Err(e) ==> is_dispatch_error(e),
    {
        self.backend.call(&tx)
    }
}

} // verus!
