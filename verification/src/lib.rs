//! A deterministic sandbox for contract execution: an account ledger, a
//! dispatcher that submits transactions to an EVM interpreter and classifies
//! what comes back, and a resolver that turns a contract's interface document
//! into callable function descriptors.

pub mod abis;
pub mod api;
pub mod client;
pub mod contract;
pub mod dispatch;
pub mod error;
pub mod evm;
pub mod laws;
pub mod ledger;
pub mod primitives;
pub mod transaction;

pub use abis::{
    build_contract_info, function_signature, map_function, resolve_selector, selector_bytes, ContractFunction,
    ContractInfo, FunctionDeclaration, StateMutability,
};
pub use api::{addr, address_helper, EVM};
pub use client::BasicClient;
pub use contract::{AbiHelperInner, ContractParser, EventDeclaration};
pub use dispatch::{Backend, process_deploy_result, process_execution_result, process_result_with_value};
pub use error::EvmError;
pub use evm::Executor;
pub use primitives::{Address, U256};
pub use transaction::{ExecutionOutcome, Log, Output, TransactTo, TxEnv};
