//! The envelope of one transaction, and what the interpreter reports of it.

use vstd::prelude::*;
use crate::primitives::{Address, U256};

verus! {

/// Where a transaction goes.
#[derive(Clone, Copy, Debug, PartialEq, Eq)]
pub enum TransactTo {
    /// To the contract or account at an address.
    Call(Address),
    /// Nowhere yet: the transaction creates a contract.
    Create,
}

/// One transaction, as it is handed to the interpreter.
#[derive(Clone, Debug, PartialEq, Eq)]
pub struct TxEnv {
    /// Who sends the transaction.
    pub caller: Address,
    /// The most gas the transaction may use.
    pub gas_limit: u64,
    /// The target: an address to call, or contract creation.
    pub transact_to: TransactTo,
    /// The amount that moves from the caller to the target.
    pub value: U256,
    /// The call data, or the init code of a creation.
    pub data: Vec<u8>,
}

impl TxEnv {
    /// A transaction that creates a contract from `bytecode`, endowed with `value`.
    pub fn create(caller: Address, bytecode: Vec<u8>, value: U256) -> (tx: TxEnv)
        ensures
            tx == (TxEnv {
                caller,
                gas_limit: u64::MAX,
                transact_to: TransactTo::Create,
                value,
                data: bytecode,
            }),
    {
        TxEnv { caller, gas_limit: u64::MAX, transact_to: TransactTo::Create, value, data: bytecode }
    }

    /// A transaction that calls `target` with `data`, sending `value` along.
    pub fn call(caller: Address, target: Address, data: Vec<u8>, value: U256) -> (tx: TxEnv)
        ensures
            tx == (TxEnv {
                caller,
                gas_limit: u64::MAX,
                transact_to: TransactTo::Call(target),
                value,
                data,
            }),
    {
        TxEnv { caller, gas_limit: u64::MAX, transact_to: TransactTo::Call(target), value, data }
    }
}

impl Default for TxEnv {
    /// A call from the zero address to the zero address that carries nothing
    /// and may use all the gas there is.
    fn default() -> (tx: TxEnv)
        ensures
            tx.caller@ == Seq::new(20, |i: int| 0u8),
            tx.transact_to == TransactTo::Call(tx.caller),
            tx.gas_limit == u64::MAX,
            tx.value@ == 0,
            tx.data@.len() == 0,
    {
        let zero = Address::zero();
        TxEnv {
            caller: zero,
            gas_limit: u64::MAX,
            transact_to: TransactTo::Call(zero),
            value: U256::zero(),
            data: Vec::new(),
        }
    }
}

/// One event that a contract emitted.
#[derive(Clone, Debug, PartialEq, Eq)]
pub struct Log {
    /// The contract that emitted the event.
    pub address: Address,
    /// The indexed words of the event, in order.
    pub topics: Vec<[u8; 32]>,
    /// The unindexed data of the event.
    pub data: Vec<u8>,
}

/// What a successful execution produced.
#[derive(Clone, Debug, PartialEq, Eq)]
pub enum Output {
    /// The bytes that a call returned.
    Call(Vec<u8>),
    /// The code of a created contract, and its address if there is one.
    Create(Vec<u8>, Option<Address>),
}

/// How the execution of one transaction ended.
#[allow(inconsistent_fields)]
#[derive(Clone, Debug, PartialEq, Eq)]
pub enum ExecutionOutcome {
    /// It ran to the end.
    Success { output: Output, gas_used: u64, logs: Vec<Log> },
    /// It reverted, handing back `output`.
    Revert { gas_used: u64, output: Vec<u8> },
    /// It halted, using all the gas.
    Halt { reason: String, gas_used: u64 },
}

} // verus!
