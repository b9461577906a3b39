//! The operations that a host calls, with addresses given as text.

use vstd::prelude::*;
use crate::client::BasicClient;
use crate::dispatch::{call_result, is_dispatch_error, ledger_with_account};
use crate::error::EvmError;
use crate::ledger::{empty_ledger, AccountEntry};
use crate::primitives::{address_of_text, text_of_address, Address, U256};
use crate::transaction::{ExecutionOutcome, Log, TransactTo, TxEnv};

verus! {

/// Reads an address from hexadecimal text. Text that spells no address is
/// rejected as `InvalidAddress`.
pub fn addr(text: &str) -> (r: Result<Address, EvmError>)
    ensures
        r is Ok == address_of_text(text@) is Some,
        r matches Ok(address) ==> address_of_text(text@) == Some(address@),
        r matches Err(e) ==> e is InvalidAddress,
{
    match Address::parse(text) {
        Some(address) => Ok(address),
        None => Err(EvmError::InvalidAddress),
    }
}

/// Whether the caller's text and, where there is one, the receiver's both
/// spell an address.
pub open spec fn addresses_valid(caller: Seq<char>, receiver: Option<Seq<char>>) -> bool {
    address_of_text(caller) is Some && match receiver {
        Some(text) => address_of_text(text) is Some,
        None => true,
    }
}

/// Reads the caller's address and, where one is given, the receiver's.
pub fn address_helper(caller: &str, receiver: Option<&str>) -> (r: Result<
    (Address, Option<Address>),
    EvmError,
>)
    ensures
        r is Ok == addresses_valid(
            caller@,
            match receiver {
                Some(text) => Some(text@),
                None => None,
            },
        ),
        r matches Ok(pair) ==> address_of_text(caller@) == Some(pair.0@) && match receiver {
            Some(text) => pair.1 matches Some(to) && address_of_text(text@) == Some(to@),
            None => pair.1 is None,
        },
        r matches Err(e) ==> e is InvalidAddress,
{
    let caller = match addr(caller) {
        Ok(caller) => caller,
        Err(e) => {
            return Err(e);
        },
    };
    match receiver {
        Some(text) => match addr(text) {
            Ok(to) => Ok((caller, Some(to))),
            Err(e) => Err(e),
        },
        None => Ok((caller, None)),
    }
}

/// Whether a transaction is the call that the texts ask for: from the
/// address that `caller` spells to the one that `to` spells, with the given
/// data and value and no limit on the gas.
pub open spec fn is_call_from(
    tx: TxEnv,
    caller: Seq<u8>,
    to: Seq<char>,
    data: Seq<u8>,
    value: nat,
) -> bool {
    &&& tx.caller@ == caller
    &&& tx.transact_to matches TransactTo::Call(target) && address_of_text(to) == Some(target@)
    &&& tx.gas_limit == u64::MAX
    &&& tx.data@ == data
    &&& tx.value@ == value
}

/// Whether a transaction is the deployment that the arguments ask for: in the
/// name of the address that `caller` spells, with the given code and value
/// and no limit on the gas.
pub open spec fn is_deployment_from(tx: TxEnv, caller: Seq<char>, code: Vec<u8>, value: U256) -> bool {
    &&& address_of_text(caller) == Some(tx.caller@)
    &&& tx.transact_to is Create
    &&& tx.gas_limit == u64::MAX
    &&& tx.data == code
    &&& tx.value == value
}

/// What a deployment hands to the host for what the client made of it: the
/// text of the created address, or the error.
pub open spec fn deployed_text(r: Result<String, EvmError>, made: Result<Address, EvmError>) -> bool {
    match made {
        Ok(address) => r matches Ok(text) && text@ == text_of_address(address@),
        Err(e) => r == Err::<String, EvmError>(e),
    }
}

/// The gas of what a call yields.
pub open spec fn gas_alone(yielded: Result<(Vec<u8>, u64, Vec<Log>), EvmError>) -> Result<
    u64,
    EvmError,
> {
    match yielded {
        Ok((_, gas_used, _)) => Ok(gas_used),
        Err(e) => Err(e),
    }
}

/// The sandbox as a host sees it: accounts, deployment, transactions and
/// calls, with every address given as hexadecimal text.
pub struct EVM(BasicClient);

impl EVM {
    /// The entries of the ledger.
    pub closed spec fn ledger(&self) -> Map<Seq<u8>, AccountEntry> {
        self.0.ledger()
    }

    /// What the interpreter makes of a transaction that runs against the
    /// ledger as it stands.
    pub closed spec fn outcome(&self, tx: TxEnv) -> Result<ExecutionOutcome, EvmError> {
        self.0.outcome(tx)
    }

    /// What a transaction changes in the ledger once it is committed.
    pub closed spec fn changes(&self, tx: TxEnv) -> Map<Seq<u8>, AccountEntry> {
        self.0.changes(tx)
    }

    /// Whether the ledger is the one that a transaction leaves where it
    /// succeeded, and the one that was there where it failed.
    pub open spec fn settled(&self, before: EVM, tx: TxEnv, succeeded: bool) -> bool {
        if succeeded {
            self.ledger() == before.ledger().union_prefer_right(before.changes(tx))
        } else {
            *self == before
        }
    }

    /// A sandbox whose ledger holds no account.
    pub fn new() -> (evm: EVM)
        ensures
            evm.ledger() == empty_ledger(),
    {
        EVM(BasicClient::new())
    }

    /// Deploys `bincode` in the name of `caller`, endowed with `value`, and
    /// hands back the address of the created contract as text. A caller that
    /// is no address is rejected before anything runs, and a deployment that
    /// fails leaves the sandbox as it was.
    pub fn deploy(&mut self, caller: &str, bincode: Vec<u8>, value: U256) -> (r: Result<
        String,
        EvmError,
    >)
        ensures
            r is Err ==> *final(self) == *old(self),
            r is Err ==> final(self).ledger() == old(self).ledger(),
            (r matches Err(EvmError::InvalidAddress)) == address_of_text(caller@) is None,
            r matches Err(e) ==> e is InvalidAddress || is_dispatch_error(e),
            r matches Ok(text) ==> exists|made: Address| text@ == text_of_address(made@),
            address_of_text(caller@) is Some ==> exists|tx: TxEnv|
                is_deployment_from(tx, caller@, bincode, value) && deployed_text(
                    r,
                    BasicClient::deployed(#[trigger] old(self).outcome(tx)),
                ) && final(self).settled(*old(self), tx, r is Ok),
    {
        let deployer = match addr(caller) {
            Ok(deployer) => deployer,
            Err(_) => {
                return Err(EvmError::InvalidAddress);
            },
        };
        let tx = TxEnv::create(deployer, bincode, value);
        let ghost sent = tx;
        let r = match self.0.deploy(tx) {
            Ok(made) => Ok(made.to_hex()),
            Err(e) => Err(e),
        };
        assert(is_deployment_from(sent, caller@, bincode, value) && deployed_text(
            r,
            BasicClient::deployed(old(self).outcome(sent)),
        ) && self.settled(*old(self), sent, r is Ok));
        r
    }

    /// Creates the account at `address` with `balance`. An account that is
    /// there is replaced by one with this balance that has sent nothing and
    /// has no code.
    pub fn create_account(&mut self, address: &str, balance: U256) -> (r: Result<(), EvmError>)
        ensures
            match address_of_text(address@) {
                Some(account) => r is Ok && final(self).ledger() == ledger_with_account(
                    old(self).ledger(),
                    account,
                    balance@,
                ),
                None => (r matches Err(EvmError::InvalidAddress)) && final(self).ledger() == old(
                    self,
                ).ledger(),
            },
    {
        match addr(address) {
            Ok(account) => self.0.create_account(account, Some(balance)),
            Err(_) => Err(EvmError::InvalidAddress),
        }
    }

    /// The balance of the account at `address`: zero where there is none.
    pub fn get_balance(&self, address: &str) -> (r: Result<U256, EvmError>)
        ensures
            match address_of_text(address@) {
                Some(account) => r matches Ok(balance) && balance@ == crate::dispatch::balance_in(
                    self.ledger(),
                    account,
                ),
                None => r matches Err(EvmError::InvalidAddress),
            },
    {
        match addr(address) {
            Ok(account) => Ok(self.0.get_balance(account)),
            Err(_) => Err(EvmError::InvalidAddress),
        }
    }

    /// Sends `amount` from `caller` to `to` and hands back the gas used. A
    /// transfer that fails leaves the sandbox as it was.
    pub fn transfer(&mut self, caller: &str, to: &str, amount: U256) -> (r: Result<u64, EvmError>)
        ensures
            r is Err ==> *final(self) == *old(self),
            r is Err ==> final(self).ledger() == old(self).ledger(),
            (r matches Err(EvmError::InvalidAddress)) == !addresses_valid(caller@, Some(to@)),
            r matches Err(e) ==> e is InvalidAddress || is_dispatch_error(e),
            addresses_valid(caller@, Some(to@)) ==> exists|tx: TxEnv|
                is_call_from(
                    tx,
                    address_of_text(caller@).unwrap(),
                    to@,
                    Seq::empty(),
                    amount@,
                ) && r == gas_alone(call_result(#[trigger] old(self).outcome(tx)))
                    && final(self).settled(*old(self), tx, r is Ok),
    {
        match address_helper(caller, Some(to)) {
            Ok((from, Some(target))) => {
                let tx = TxEnv::call(from, target, Vec::new(), amount);
                let ghost sent = tx;
                let r = match self.0.send_transaction(tx) {
                    Ok((_, gas_used, _)) => Ok(gas_used),
                    Err(e) => Err(e),
                };
                assert(is_call_from(sent, from@, to@, Seq::empty(), amount@) && r == gas_alone(
                    call_result(old(self).outcome(sent)),
                ) && self.settled(*old(self), sent, r is Ok));
                r
            },
            _ => Err(EvmError::InvalidAddress),
        }
    }

    /// Runs a committing transaction from `caller` to `to` with `data`, and
    /// with `value` where one is given. Hands back the returned bytes, the
    /// gas used and the events. A transaction that fails leaves the sandbox
    /// as it was.
    pub fn transact(&mut self, caller: &str, to: &str, data: Vec<u8>, value: Option<U256>) -> (r:
        Result<(Vec<u8>, u64, Vec<Log>), EvmError>)
        ensures
            r is Err ==> *final(self) == *old(self),
            r is Err ==> final(self).ledger() == old(self).ledger(),
            (r matches Err(EvmError::InvalidAddress)) == !addresses_valid(caller@, Some(to@)),
            r matches Err(e) ==> e is InvalidAddress || is_dispatch_error(e),
            addresses_valid(caller@, Some(to@)) ==> exists|tx: TxEnv|
                is_call_from(
                    tx,
                    address_of_text(caller@).unwrap(),
                    to@,
                    data@,
                    match value {
                        Some(amount) => amount@,
                        None => 0,
                    },
                ) && tx.data == data && r == call_result(#[trigger] old(self).outcome(tx))
                    && final(self).settled(*old(self), tx, r is Ok),
    {
        match address_helper(caller, Some(to)) {
            Ok((from, Some(target))) => {
                let amount = match value {
                    Some(amount) => amount,
                    None => U256::zero(),
                };
                let tx = TxEnv::call(from, target, data, amount);
                let ghost sent = tx;
                let r = self.0.send_transaction(tx);
                assert(is_call_from(sent, from@, to@, data@, amount@) && sent.data == data && r
                    == call_result(old(self).outcome(sent)) && self.settled(
                    *old(self),
                    sent,
                    r is Ok,
                ));
                r
            },
            _ => Err(EvmError::InvalidAddress),
        }
    }

    /// Runs a read-only call to `to` with `data`, in the name of the zero
    /// address, and hands back the returned bytes, the gas used and the
    /// events. Nothing is committed, whatever the outcome.
    pub fn call(&self, to: &str, data: Vec<u8>) -> (r: Result<(Vec<u8>, u64, Vec<Log>), EvmError>)
        ensures
            (r matches Err(EvmError::InvalidAddress)) == address_of_text(to@) is None,
            r matches Err(e) ==> e is InvalidAddress || is_dispatch_error(e),
            address_of_text(to@) is Some ==> exists|tx: TxEnv|
                is_call_from(tx, Seq::new(20, |i: int| 0u8), to@, data@, 0) && tx.data == data && r
                    == call_result(#[trigger] self.outcome(tx)),
    {
        match addr(to) {
            Ok(target) => {
                let tx = TxEnv::call(Address::zero(), target, data, U256::zero());
                let ghost sent = tx;
                let r = self.0.call(tx);
                assert(is_call_from(sent, Seq::new(20, |i: int| 0u8), to@, data@, 0) && sent.data
                    == data && r == call_result(self.outcome(sent)));
                r
            },
            Err(_) => Err(EvmError::InvalidAddress),
        }
    }
}

} // verus!
