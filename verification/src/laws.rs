//! What holds of the ledger and of the classification of outcomes, whatever
//! the inputs.

use vstd::prelude::*;
use crate::abis::{describes, texts, ContractFunction, FunctionDeclaration};
use crate::dispatch::{balance_in, call_yield, deploy_yield, execution_yield, ledger_with_account};
use crate::error::EvmError;
use crate::ledger::{empty_ledger, AccountEntry};
use crate::primitives::Address;
use crate::transaction::{ExecutionOutcome, Log, Output};

verus! {

/// The ledger that a row of account creations leaves behind, when it starts
/// from a ledger without accounts. Each creation is an address with a
/// balance; the last one in the row was made last.
pub open spec fn ledger_after(creations: Seq<(Seq<u8>, nat)>) -> Map<Seq<u8>, AccountEntry>
    decreases creations.len(),
{
    if creations.len() == 0 {
        empty_ledger()
    } else {
        ledger_with_account(
            ledger_after(creations.drop_last()),
            creations.last().0,
            creations.last().1,
        )
    }
}

/// In a ledger without accounts every address has the balance zero.
pub proof fn lemma_empty_ledger_has_no_balance(address: Seq<u8>)
    ensures
        balance_in(empty_ledger(), address) == 0,
{
}

/// An address for which no account was ever created has the balance zero,
/// whatever accounts were created at other addresses.
pub proof fn lemma_untouched_address_has_no_balance(
    creations: Seq<(Seq<u8>, nat)>,
    address: Seq<u8>,
)
    requires
        forall|i: int| 0 <= i < creations.len() ==> (#[trigger] creations[i]).0 != address,
    ensures
        balance_in(ledger_after(creations), address) == 0,
    decreases creations.len(),
{
    if creations.len() > 0 {
        let earlier = creations.drop_last();
        assert forall|i: int| 0 <= i < earlier.len() implies (#[trigger] earlier[i]).0
            != address by {
            assert(earlier[i] == creations[i]);
        }
        lemma_untouched_address_has_no_balance(earlier, address);
        assert(creations.last() == creations[creations.len() - 1]);
    }
}

/// Right after an account was created with a balance, the ledger reports
/// exactly that balance for its address, whatever the ledger held before.
pub proof fn lemma_created_account_has_its_balance(
    entries: Map<Seq<u8>, AccountEntry>,
    address: Seq<u8>,
    balance: nat,
)
    ensures
        balance_in(ledger_with_account(entries, address, balance), address) == balance,
{
}

/// Creating an account changes the balance of no other address.
pub proof fn lemma_creation_leaves_other_balances(
    entries: Map<Seq<u8>, AccountEntry>,
    address: Seq<u8>,
    balance: nat,
    other: Seq<u8>,
)
    requires
        other != address,
    ensures
        balance_in(ledger_with_account(entries, address, balance), other) == balance_in(
            entries,
            other,
        ),
{
}

/// Creating an account a second time replaces what the first creation did:
/// the ledger is the one that the second creation alone would have left.
pub proof fn lemma_creation_overwrites(
    entries: Map<Seq<u8>, AccountEntry>,
    address: Seq<u8>,
    first: nat,
    second: nat,
)
    ensures
        ledger_with_account(ledger_with_account(entries, address, first), address, second)
            == ledger_with_account(entries, address, second),
{
    assert(ledger_with_account(ledger_with_account(entries, address, first), address, second)
        =~= ledger_with_account(entries, address, second));
}

/// A deployment whose execution succeeded with a created address yields that
/// address and the gas used.
pub proof fn lemma_deploy_of_created_address(
    code: Vec<u8>,
    made: Address,
    gas_used: u64,
    logs: Vec<Log>,
)
    ensures
        deploy_yield(
            ExecutionOutcome::Success { output: Output::Create(code, Some(made)), gas_used, logs },
        ) == Ok::<(Address, u64), EvmError>((made, gas_used)),
{
}

/// A deployment whose execution reverted fails with the bytes that the
/// revert returned, and so does a call.
pub proof fn lemma_revert_fails(gas_used: u64, output: Vec<u8>)
    ensures
        deploy_yield(ExecutionOutcome::Revert { gas_used, output }) == Err::<
            (Address, u64),
            EvmError,
        >(EvmError::RevertedCall(output)),
        call_yield(ExecutionOutcome::Revert { gas_used, output }) == Err::<
            (Vec<u8>, u64, Vec<Log>),
            EvmError,
        >(EvmError::RevertedCall(output)),
{
}

/// An outcome yields a result for a deployment or for a call, never for
/// both: what succeeds as the one is an unexpected outcome for the other.
pub proof fn lemma_call_and_deploy_exclude_each_other(result: ExecutionOutcome)
    ensures
        !(call_yield(result) is Ok && deploy_yield(result) is Ok),
        execution_yield(result) is Err ==> call_yield(result) is Err && deploy_yield(result) is Err,
        call_yield(result) is Ok ==> deploy_yield(result) == Err::<(Address, u64), EvmError>(
            EvmError::UnexpectedOutcome,
        ),
{
}

/// The selector of a function is determined by its name and the canonical
/// types of its inputs: two declarations that agree in these are described with the
/// same selector, whatever their outputs and their mutability.
pub proof fn lemma_selector_follows_signature(
    f: ContractFunction,
    declared: FunctionDeclaration,
    g: ContractFunction,
    other: FunctionDeclaration,
)
    requires
        describes(f, declared),
        describes(g, other),
        declared.name@ == other.name@,
        texts(declared.canonical_inputs@) == texts(other.canonical_inputs@),
    ensures
        f.signature@ == g.signature@,
{
}

} // verus!
