//! Submitting a transaction to the interpreter, and classifying what it
//! reports.

use vstd::prelude::*;
use crate::error::EvmError;
use crate::ledger::{
    account_balance, clone_ledger, commit_state, discard_entry, empty_ledger, execution_of,
    fault_text, fresh_account, AccountEntry,
    has_vacant_entry, insert_account_info, ledger_entries, new_ledger, outcome_of,
    recorded_balance, result_gas_used, result_logs, result_verdict, transact_ref, Verdict,
};
use crate::primitives::{Address, U256};
use crate::transaction::{ExecutionOutcome, Log, Output, TxEnv};

verus! {

/// The balance of an address in a ledger: zero unless the ledger has an
/// entry for it that stands for an existing account.
pub open spec fn balance_in(entries: Map<Seq<u8>, AccountEntry>, address: Seq<u8>) -> nat {
    match recorded_balance(entries, address) {
        Some(balance) => balance,
        None => 0,
    }
}

/// The ledger after an account was created: the address has an entry that
/// stands for an existing account with the given balance, which has sent
/// nothing and has no code, and every other entry is as before.
pub open spec fn ledger_with_account(
    entries: Map<Seq<u8>, AccountEntry>,
    address: Seq<u8>,
    balance: nat,
) -> Map<Seq<u8>, AccountEntry> {
    entries.insert(address, fresh_account(balance))
}

/// What a successful execution hands on: its output, the gas it used and the
/// events it emitted. A revert fails with the bytes it returned, a halt with
/// its reason.
pub open spec fn execution_yield(result: ExecutionOutcome) -> Result<
    (Output, u64, Vec<Log>),
    EvmError,
> {
    match result {
        ExecutionOutcome::Success { output, gas_used, logs } => Ok((output, gas_used, logs)),
        ExecutionOutcome::Revert { output, .. } => Err(EvmError::RevertedCall(output)),
        ExecutionOutcome::Halt { reason, .. } => Err(EvmError::HaltedCall(reason)),
    }
}

/// What a call hands on: the bytes it returned, with gas and events. A
/// success that carries a created contract instead does not fit a call.
pub open spec fn call_yield(result: ExecutionOutcome) -> Result<(Vec<u8>, u64, Vec<Log>), EvmError> {
    match execution_yield(result) {
        Ok((Output::Call(value), gas_used, logs)) => Ok((value, gas_used, logs)),
        Ok((Output::Create(_, _), _, _)) => Err(EvmError::UnexpectedOutcome),
        Err(e) => Err(e),
    }
}

/// What a deployment hands on: the address of the created contract and the
/// gas used. A success without a created address does not fit a deployment.
pub open spec fn deploy_yield(result: ExecutionOutcome) -> Result<(Address, u64), EvmError> {
    match execution_yield(result) {
        Ok((Output::Create(_, Some(address)), gas_used, _)) => Ok((address, gas_used)),
        Ok((Output::Create(_, None), _, _)) => Err(EvmError::UnexpectedOutcome),
        Ok((Output::Call(_), _, _)) => Err(EvmError::UnexpectedOutcome),
        Err(e) => Err(e),
    }
}

/// Sorts an execution by how it ended: a success yields output, gas used and
/// events; a revert and a halt become the matching error.
pub fn process_execution_result(result: ExecutionOutcome) -> (r: Result<
    (Output, u64, Vec<Log>),
    EvmError,
>)
    ensures
        r == execution_yield(result),
{
    match result {
        ExecutionOutcome::Success { output, gas_used, logs } => Ok((output, gas_used, logs)),
        ExecutionOutcome::Revert { output, .. } => Err(EvmError::RevertedCall(output)),
        ExecutionOutcome::Halt { reason, .. } => Err(EvmError::HaltedCall(reason)),
    }
}

/// Classifies the execution of a call: the returned bytes, the gas used and
/// the events of a success whose output is a call's.
pub fn process_result_with_value(result: ExecutionOutcome) -> (r: Result<
    (Vec<u8>, u64, Vec<Log>),
    EvmError,
>)
    ensures
        r == call_yield(result),
{
    match process_execution_result(result) {
        Ok((output, gas_used, logs)) => match output {
            Output::Call(value) => Ok((value, gas_used, logs)),
            Output::Create(_, _) => Err(EvmError::UnexpectedOutcome),
        },
        Err(e) => Err(e),
    }
}

/// Classifies the execution of a deployment: the address of the created
/// contract and the gas used, for a success that created one.
pub fn process_deploy_result(result: ExecutionOutcome) -> (r: Result<(Address, u64), EvmError>)
    ensures
        r == deploy_yield(result),
{
    match process_execution_result(result) {
        Ok((output, gas_used, _)) => match output {
            Output::Create(_, Some(address)) => Ok((address, gas_used)),
            _ => Err(EvmError::UnexpectedOutcome),
        },
        Err(e) => Err(e),
    }
}

/// Whether an error is one that dispatching a transaction can end in.
pub open spec fn is_dispatch_error(e: EvmError) -> bool {
    e is RevertedCall || e is HaltedCall || e is UnexpectedOutcome || e is BackendFailure
}

/// The ledger of accounts, with the interpreter that runs transactions on
/// it.
pub struct Backend {
    db: revm::db::CacheDB<revm::db::EmptyDB>,
}

/// What a call yields for what the interpreter made of it: the yield of the
/// outcome, or the refusal.
pub open spec fn call_result(ran: Result<ExecutionOutcome, EvmError>) -> Result<
    (Vec<u8>, u64, Vec<Log>),
    EvmError,
> {
    match ran {
        Ok(outcome) => call_yield(outcome),
        Err(e) => Err(e),
    }
}

/// What a deployment yields for what the interpreter made of it: the yield
/// of the outcome, or the refusal.
pub open spec fn deploy_result(ran: Result<ExecutionOutcome, EvmError>) -> Result<
    (Address, u64),
    EvmError,
> {
    match ran {
        Ok(outcome) => deploy_yield(outcome),
        Err(e) => Err(e),
    }
}

/// Puts together what the interpreter reported of one execution: the outcome
/// that the result holds.
fn read_outcome(done: &revm::primitives::ResultAndState) -> (outcome: ExecutionOutcome)
    ensures
        outcome == outcome_of(*done),
{
    let gas_used = result_gas_used(done);
    match result_verdict(done) {
        Verdict::Success(output) => ExecutionOutcome::Success {
            output,
            gas_used,
            logs: result_logs(done),
        },
        Verdict::Revert(output) => ExecutionOutcome::Revert { gas_used, output },
        Verdict::Halt(reason) => ExecutionOutcome::Halt { reason, gas_used },
    }
}

impl View for Backend {
    type V = Map<Seq<u8>, AccountEntry>;

    closed spec fn view(&self) -> Map<Seq<u8>, AccountEntry> {
        ledger_entries(self.db)
    }
}

impl Clone for Backend {
    /// A second ledger with the same accounts.
    fn clone(&self) -> (copy: Backend)
        ensures
            copy == *self,
            copy@ == self@,
    {
        Backend { db: clone_ledger(&self.db) }
    }
}

impl Backend {
    /// What the interpreter makes of a transaction that runs against this
    /// ledger: how the execution ends, or `BackendFailure` with the text of
    /// the refusal where the interpreter does not run the transaction.
    pub closed spec fn outcome(&self, tx: TxEnv) -> Result<ExecutionOutcome, EvmError> {
        match execution_of(self.db, tx) {
            Ok((outcome, _)) => Ok(outcome),
            Err(text) => Err(EvmError::BackendFailure(text)),
        }
    }

    /// What a transaction changes in this ledger once it is committed: for
    /// each address whose account the execution touches, the entry that it
    /// leaves. Nothing where the interpreter refuses the transaction.
    pub closed spec fn changes(&self, tx: TxEnv) -> Map<Seq<u8>, AccountEntry> {
        match execution_of(self.db, tx) {
            Ok((_, changed)) => changed,
            Err(_) => Map::empty(),
        }
    }

    /// An interpreter over a ledger without accounts.
    pub fn new() -> (backend: Backend)
        ensures
            backend@ == empty_ledger(),
    {
        Backend { db: new_ledger() }
    }

    /// The balance of an address: zero where the ledger knows no account.
    pub fn balance(&self, address: Address) -> (balance: U256)
        ensures
            balance@ == balance_in(self@, address@),
    {
        match account_balance(&self.db, &address) {
            Some(balance) => balance,
            None => U256::zero(),
        }
    }

    /// Creates the account at `address` with the given balance. An account
    /// that is there is replaced by one with this balance that has sent
    /// nothing and has no code.
    pub fn create_account(&mut self, address: Address, balance: U256)
        ensures
            final(self)@ == ledger_with_account(old(self)@, address@, balance@),
    {
        if has_vacant_entry(&self.db, &address) {
            discard_entry(&mut self.db, &address);
        }
        insert_account_info(&mut self.db, &address, &balance);
        assert(self@ =~= ledger_with_account(old(self)@, address@, balance@));
    }

    /// Runs one transaction against the ledger as it stands and reports how
    /// it ended. Nothing is committed.
    pub fn execute(&self, tx: &TxEnv) -> (r: Result<ExecutionOutcome, EvmError>)
        ensures
            r == self.outcome(*tx),
            r matches Err(e) ==> e is BackendFailure,
    {
        match transact_ref(&self.db, tx) {
            Ok(done) => Ok(read_outcome(&done)),
            Err(fault) => Err(EvmError::BackendFailure(fault_text(&fault))),
        }
    }

    /// Runs a read-only call: the returned bytes, the gas used and the
    /// events of a successful call. The ledger stays as it is.
    pub fn call(&self, tx: &TxEnv) -> (r: Result<(Vec<u8>, u64, Vec<Log>), EvmError>)
        ensures
            r == call_result(self.outcome(*tx)),
            r matches Err(e) ==> is_dispatch_error(e),
    {
        match self.execute(tx) {
            Ok(result) => process_result_with_value(result),
            Err(e) => Err(e),
        }
    }

    /// Runs a committing transaction: the returned bytes, the gas used and
    /// the events of a successful call, whose changes are written to the
    /// ledger. A transaction that fails, in whatever way, leaves the ledger
    /// as it was.
    pub fn transact(&mut self, tx: &TxEnv) -> (r: Result<(Vec<u8>, u64, Vec<Log>), EvmError>)
        ensures
            r == call_result(old(self).outcome(*tx)),
            r is Ok ==> final(self)@ == old(self)@.union_prefer_right(old(self).changes(*tx)),
            r is Err ==> *final(self) == *old(self),
            r is Err ==> final(self)@ == old(self)@,
            r matches Err(e) ==> is_dispatch_error(e),
    {
        match transact_ref(&self.db, tx) {
            Ok(done) => {
                let r = process_result_with_value(read_outcome(&done));
                if r.is_ok() {
                    commit_state(&mut self.db, done);
                }
                r
            },
            Err(fault) => Err(EvmError::BackendFailure(fault_text(&fault))),
        }
    }

    /// Runs a deployment: the address of the created contract and the gas
    /// used, with the changes of the deployment written to the ledger. A
    /// deployment that fails, in whatever way, leaves the ledger as it was.
    pub fn deploy(&mut self, tx: &TxEnv) -> (r: Result<(Address, u64), EvmError>)
        ensures
            r == deploy_result(old(self).outcome(*tx)),
            r is Ok ==> final(self)@ == old(self)@.union_prefer_right(old(self).changes(*tx)),
            r is Err ==> *final(self) == *old(self),
            r is Err ==> final(self)@ == old(self)@,
            r matches Err(e) ==> is_dispatch_error(e),
    {
        match transact_ref(&self.db, tx) {
            Ok(done) => {
                let r = process_deploy_result(read_outcome(&done));
                if r.is_ok() {
                    commit_state(&mut self.db, done);
                }
                r
            },
            Err(fault) => Err(EvmError::BackendFailure(fault_text(&fault))),
        }
    }
}

} // verus!
