//! The client: the ledger and the interpreter behind the operations that a
//! host calls.

use vstd::prelude::*;
use crate::dispatch::{
    balance_in, call_result, deploy_result, is_dispatch_error, ledger_with_account, Backend,
};
use crate::error::EvmError;
use crate::ledger::{empty_ledger, AccountEntry};
use crate::primitives::{Address, U256};
use crate::transaction::{ExecutionOutcome, Log, TxEnv};

verus! {

/// A ledger of accounts with the interpreter that runs transactions on it.
pub struct BasicClient {
    backend: Backend,
}

impl Clone for BasicClient {
    /// A second client whose ledger holds the same accounts. What either
    /// does afterwards does not reach the other.
    fn clone(&self) -> (copy: BasicClient)
        ensures
            copy == *self,
            copy.ledger() == self.ledger(),
    {
        BasicClient { backend: self.backend.clone() }
    }
}

impl BasicClient {
    /// The entries of the ledger: for each address with an entry, whether it
    /// stands for an existing account, and its balance.
    pub closed spec fn ledger(&self) -> Map<Seq<u8>, AccountEntry> {
        self.backend@
    }

    /// The balance of an address: zero where there is no account.
    pub open spec fn balance_of(&self, address: Address) -> nat {
        balance_in(self.ledger(), address@)
    }

    /// What the interpreter makes of a transaction that runs against the
    /// ledger as it stands: how the execution ends, or `BackendFailure` where
    /// the interpreter refuses the transaction.
    pub closed spec fn outcome(&self, tx: TxEnv) -> Result<ExecutionOutcome, EvmError> {
        self.backend.outcome(tx)
    }

    /// What a transaction changes in the ledger once it is committed: for
    /// each address whose account the execution touches, the entry that it
    /// leaves.
    pub closed spec fn changes(&self, tx: TxEnv) -> Map<Seq<u8>, AccountEntry> {
        self.backend.changes(tx)
    }

    /// The address that a deployment yields for what the interpreter made of
    /// it.
    pub open spec fn deployed(ran: Result<ExecutionOutcome, EvmError>) -> Result<Address, EvmError> {
        match deploy_result(ran) {
            Ok((address, _)) => Ok(address),
            Err(e) => Err(e),
        }
    }

    /// A client whose ledger holds no account.
    pub fn new() -> (client: BasicClient)
        ensures
            client.ledger() == empty_ledger(),
            forall|address: Address| client.balance_of(address) == 0,
    {
        BasicClient { backend: Backend::new() }
    }

    /// Creates an account with `amount` as its balance, or with none where no
    /// amount is given. An account that is there is replaced: it gets the
    /// balance, and its nonce and code are gone. Never fails.
    pub fn create_account(&mut self, address: Address, amount: Option<U256>) -> (r: Result<
        (),
        EvmError,
    >)
        ensures
            r is Ok,
            final(self).ledger() == ledger_with_account(
                old(self).ledger(),
                address@,
                match amount {
                    Some(balance) => balance@,
                    None => 0,
                },
            ),
            final(self).balance_of(address) == match amount {
                Some(balance) => balance@,
                None => 0,
            },
            forall|other: Address|
                other@ != address@ ==> final(self).balance_of(other) == old(self).balance_of(other),
    {
        let balance = match amount {
            Some(balance) => balance,
            None => U256::zero(),
        };
        self.backend.create_account(address, balance);
        Ok(())
    }

    /// Get the account balance of the given account: zero for one that the
    /// ledger does not know.
    pub fn get_balance(&self, account: Address) -> (balance: U256)
        ensures
            balance@ == self.balance_of(account),
    {
        self.backend.balance(account)
    }

    /// Deploys a contract and hands back the address of the created
    /// contract. What the deployment changed is committed; a deployment that
    /// fails leaves the ledger as it was.
    pub fn deploy(&mut self, tx: TxEnv) -> (r: Result<Address, EvmError>)
        ensures
            r == Self::deployed(old(self).outcome(tx)),
            r is Ok ==> final(self).ledger() == old(self).ledger().union_prefer_right(
                old(self).changes(tx),
            ),
            r is Err ==> *final(self) == *old(self),
            r is Err ==> final(self).ledger() == old(self).ledger(),
            r matches Err(e) ==> is_dispatch_error(e),
    {
        match self.backend.deploy(&tx) {
            Ok((address, _)) => Ok(address),
            Err(e) => Err(e),
        }
    }

    /// Runs a read-only call and hands back the returned bytes, the gas used
    /// and the events. Nothing is committed, whatever the outcome.
    pub fn call(&self, tx: TxEnv) -> (r: Result<(Vec<u8>, u64, Vec<Log>), EvmError>)
        ensures
            r == call_result(self.outcome(tx)),
            r matches Err(e) ==> is_dispatch_error(e),
    {
        self.backend.call(&tx)
    }

    /// Runs a transaction and hands back the returned bytes, the gas used
    /// and the events. What the transaction changed is committed; one that
    /// fails leaves the ledger as it was.
    pub fn send_transaction(&mut self, tx: TxEnv) -> (r: Result<(Vec<u8>, u64, Vec<Log>), EvmError>)
        ensures
            r == call_result(old(self).outcome(tx)),
            r is Ok ==> final(self).ledger() == old(self).ledger().union_prefer_right(
                old(self).changes(tx),
            ),
            r is Err ==> *final(self) == *old(self),
            r is Err ==> final(self).ledger() == old(self).ledger(),
            r matches Err(e) ==> is_dispatch_error(e),
    {
        self.backend.transact(&tx)
    }
}

} // verus!
