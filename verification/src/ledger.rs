//! The account ledger and the interpreter that runs transactions against it.
//!
//! Both live in the `revm` crate. Nothing in this file is proved: each
//! function states what the crate's source shows of one of its operations.

use vstd::prelude::*;
use crate::primitives::{Address, U256};
use crate::transaction::{ExecutionOutcome, Log, Output, TransactTo, TxEnv};

verus! {

/// `revm`'s in-memory database of accounts.
#[verifier::external_type_specification]
#[verifier::external_body]
#[verifier::reject_recursive_types(ExtDB)]
pub struct ExCacheDB<ExtDB>(revm::db::CacheDB<ExtDB>);

/// `revm`'s database without accounts, which the in-memory database falls
/// back to.
#[verifier::external_type_specification]
#[verifier::external_body]
#[verifier::reject_recursive_types(E)]
pub struct ExEmptyDB<E>(revm::db::EmptyDBTyped<E>);

/// What `revm` reports of one execution: how it ended, and the state that
/// it changed.
#[verifier::external_type_specification]
#[verifier::external_body]
pub struct ExResultAndState(revm::primitives::ResultAndState);

/// Why `revm` refused to run a transaction.
#[verifier::external_type_specification]
#[verifier::external_body]
#[verifier::reject_recursive_types(DBError)]
pub struct ExEvmError<DBError>(revm::primitives::EVMError<DBError>);

/// What the ledger records of one address.
pub struct AccountEntry {
    /// Whether the entry stands for an existing account. One that does not
    /// is what the database keeps after it looked an address up in vain, or
    /// after the account destroyed itself.
    pub live: bool,
    /// The balance.
    pub balance: nat,
    /// The number of transactions sent from the address.
    pub nonce: u64,
    /// The Keccak-256 digest of the code; that of no bytes for an account
    /// without code.
    pub code_hash: Seq<u8>,
}

/// The Keccak-256 digest of no bytes, which is the code hash of an account
/// without code.
pub open spec fn empty_code_hash() -> Seq<u8> {
    seq![
        0xc5u8, 0xd2, 0x46, 0x01, 0x86, 0xf7, 0x23, 0x3c, 0x92, 0x7e, 0x7d, 0xb2, 0xdc, 0xc7, 0x03,
        0xc0, 0xe5, 0x00, 0xb6, 0x53, 0xca, 0x82, 0x27, 0x3b, 0x7b, 0xfa, 0xd8, 0x04, 0x5d, 0x85,
        0xa4, 0x70,
    ]
}

/// The entry of an account that was just made with a balance: it exists, has
/// sent nothing and has no code.
pub open spec fn fresh_account(balance: nat) -> AccountEntry {
    AccountEntry { live: true, balance, nonce: 0, code_hash: empty_code_hash() }
}

/// What the account database holds: for each address with an entry, whether
/// the entry stands for an existing account, and the balance, the nonce and
/// the code hash of the account info recorded in it.
pub uninterp spec fn ledger_entries(db: revm::db::CacheDB<revm::db::EmptyDB>) -> Map<Seq<u8>, AccountEntry>;

/// `Clone` of `CacheDB<EmptyDB>`, which `derive` wrote: the copy holds what
/// the database holds.
#[verifier::external_body]
pub(crate) fn clone_ledger(db: &revm::db::CacheDB<revm::db::EmptyDB>) -> (copy: revm::db::CacheDB<
    revm::db::EmptyDB,
>)
    ensures
        copy == *db,
{
    db.clone()
}

/// The ledger in which no address has an entry.
pub open spec fn empty_ledger() -> Map<Seq<u8>, AccountEntry> {
    Map::empty()
}

/// `CacheDB::new` over `EmptyDB::new`: a database in which no address has an
/// entry.
#[verifier::external_body]
pub(crate) fn new_ledger() -> (db: revm::db::CacheDB<revm::db::EmptyDB>)
    ensures
        ledger_entries(db) =~= empty_ledger(),
{
    revm::db::CacheDB::new(revm::db::EmptyDB::new())
}

/// The ledger after `CacheDB::insert_account_info` with the default info but
/// for the balance: the entry of the address takes the balance, the nonce
/// zero and the code hash of no code, and stands for an existing account
/// unless an entry was there before and did not.
pub open spec fn with_account_info(
    entries: Map<Seq<u8>, AccountEntry>,
    address: Seq<u8>,
    balance: nat,
) -> Map<Seq<u8>, AccountEntry> {
    if entries.dom().contains(address) {
        entries.insert(
            address,
            AccountEntry { live: entries[address].live, ..fresh_account(balance) },
        )
    } else {
        entries.insert(address, fresh_account(balance))
    }
}

/// `CacheDB::insert_account_info` with an `AccountInfo` that is the default
/// but for its balance: the nonce zero, the code hash `KECCAK_EMPTY` and code
/// without bytes, which the database does not store. The database writes
/// the info into the entry of the address, which it makes with the default
/// state if there is none; the state of an entry that is there stays as it
/// was.
#[verifier::external_body]
pub(crate) fn insert_account_info(
    db: &mut revm::db::CacheDB<revm::db::EmptyDB>,
    address: &Address,
    balance: &U256,
)
    ensures
        ledger_entries(*final(db)) == with_account_info(
            ledger_entries(*old(db)),
            address@,
            balance@,
        ),
{
    let mut info = revm::primitives::AccountInfo::default();
    info.balance = revm::primitives::U256::from_limbs(balance.limbs);
    db.insert_account_info(revm::primitives::Address::new(address.bytes), info);
}

/// The balance that the ledger reports for an address: that of its entry, if
/// the entry stands for an existing account.
pub open spec fn recorded_balance(entries: Map<Seq<u8>, AccountEntry>, address: Seq<u8>) -> Option<
    nat,
> {
    if entries.dom().contains(address) && entries[address].live {
        Some(entries[address].balance)
    } else {
        None
    }
}

/// `DatabaseRef::basic_ref` of `CacheDB<EmptyDB>`, which reads the entry of
/// the address and changes nothing: the balance of the account's info where
/// the entry stands for an existing account, `None` where it does not or
/// where there is no entry.
#[verifier::external_body]
pub(crate) fn account_balance(db: &revm::db::CacheDB<revm::db::EmptyDB>, address: &Address) -> (balance:
    Option<U256>)
    ensures
        balance is Some == recorded_balance(ledger_entries(*db), address@) is Some,
        balance matches Some(b) ==> recorded_balance(ledger_entries(*db), address@) == Some(b@),
{
    let key = revm::primitives::Address::new(address.bytes);
    let info = revm::DatabaseRef::basic_ref(db, key).ok()??;
    Some(U256 { limbs: info.balance.into_limbs() })
}

/// Whether the address has an entry that stands for no existing account.
pub open spec fn is_vacant(entries: Map<Seq<u8>, AccountEntry>, address: Seq<u8>) -> bool {
    entries.dom().contains(address) && !entries[address].live
}

/// Reads the state of the entry that `CacheDB::accounts` holds for the
/// address: `true` where there is an entry and its state is
/// `AccountState::NotExisting`.
#[verifier::external_body]
pub(crate) fn has_vacant_entry(db: &revm::db::CacheDB<revm::db::EmptyDB>, address: &Address) -> (vacant:
    bool)
    ensures
        vacant == is_vacant(ledger_entries(*db), address@),
{
    let entry = db.accounts.get(&revm::primitives::Address::new(address.bytes));
    match entry.map(|account| &account.account_state) {
        Some(revm::db::AccountState::NotExisting) => true,
        Some(revm::db::AccountState::Touched) => false,
        Some(revm::db::AccountState::StorageCleared) => false,
        Some(revm::db::AccountState::None) => false,
        None => false,
    }
}

/// `HashMap::remove` on `CacheDB::accounts`: the entry of the address leaves
/// the database, and no other entry changes.
#[verifier::external_body]
pub(crate) fn discard_entry(db: &mut revm::db::CacheDB<revm::db::EmptyDB>, address: &Address)
    ensures
        ledger_entries(*final(db)) == ledger_entries(*old(db)).remove(address@),
{
    db.accounts.remove(&revm::primitives::Address::new(address.bytes));
}

/// What the interpreter makes of a transaction that runs against a
/// database: how the execution ended and what it changes in the ledger once
/// committed, or the text of the refusal where the interpreter did not run
/// the transaction at all. The interpreter is deterministic: the database
/// and the transaction decide.
pub uninterp spec fn execution_of(
    db: revm::db::CacheDB<revm::db::EmptyDB>,
    tx: TxEnv,
) -> Result<(ExecutionOutcome, Map<Seq<u8>, AccountEntry>), String>;

/// What the state that comes back with a result writes into the ledger when
/// it is committed: for each address whose account the execution touched,
/// the entry that takes the place of the one that was there. The entry of an
/// account that destroyed itself stands for no account and holds the default
/// info: no balance, the nonce zero, the code hash of no code. The entry of
/// any other stands for an existing account with the balance, the nonce and
/// the code hash of the info that the commit records.
pub uninterp spec fn changes_of(done: revm::primitives::ResultAndState) -> Map<Seq<u8>, AccountEntry>;

/// What a result of the interpreter holds of how the execution ended: the
/// variant with its gas, and with output and events, returned bytes or the
/// halt's reason as `Debug` prints it.
pub uninterp spec fn outcome_of(done: revm::primitives::ResultAndState) -> ExecutionOutcome;

/// What `Debug` prints of a refusal of the interpreter.
pub uninterp spec fn fault_of(
    fault: revm::primitives::EVMError<core::convert::Infallible>,
) -> String;

/// What came back from the interpreter, as the library holds it.
pub open spec fn reported(
    ran: Result<
        revm::primitives::ResultAndState,
        revm::primitives::EVMError<core::convert::Infallible>,
    >,
) -> Result<(ExecutionOutcome, Map<Seq<u8>, AccountEntry>), String> {
    match ran {
        Ok(done) => Ok((outcome_of(done), changes_of(done))),
        Err(fault) => Err(fault_of(fault)),
    }
}

/// `Evm::transact` of an interpreter built with `EvmBuilder::with_ref_db`
/// over a shared reference to the database, with the default environment but
/// for the transaction's caller, gas limit, target, value and data. It runs
/// the transaction and hands back the result with the state that the
/// execution changed; the database cannot change behind a shared reference.
#[verifier::external_body]
pub(crate) fn transact_ref(db: &revm::db::CacheDB<revm::db::EmptyDB>, tx: &TxEnv) -> (ran: Result<
    revm::primitives::ResultAndState,
    revm::primitives::EVMError<core::convert::Infallible>,
>)
    ensures
        reported(ran) == execution_of(*db, *tx),
{
    let mut evm = revm::Evm::builder().with_ref_db(db).build();
    let env = evm.tx_mut();
    env.caller = revm::primitives::Address::new(tx.caller.bytes);
    env.gas_limit = tx.gas_limit;
    env.transact_to = match tx.transact_to {
        TransactTo::Call(to) => revm::primitives::TxKind::Call(to.bytes.into()),
        TransactTo::Create => revm::primitives::TxKind::Create,
    };
    env.value = revm::primitives::U256::from_limbs(tx.value.limbs);
    env.data = tx.data.clone().into();
    evm.transact()
}

/// `DatabaseCommit::commit` of `CacheDB`: writes the state that an execution
/// changed into the database. An account that was not touched is passed
/// over; one that destroyed itself gets the state `NotExisting` and the
/// default info; any other gets the info of the changed state and a state
/// that is not `NotExisting`. No other entry changes.
#[verifier::external_body]
pub(crate) fn commit_state(
    db: &mut revm::db::CacheDB<revm::db::EmptyDB>,
    done: revm::primitives::ResultAndState,
)
    ensures
        ledger_entries(*final(db)) == ledger_entries(*old(db)).union_prefer_right(changes_of(done)),
{
    revm::DatabaseCommit::commit(db, done.state);
}

/// How an execution ended, without its gas and its logs.
pub enum Verdict {
    /// `ExecutionResult::Success`, with its output.
    Success(Output),
    /// `ExecutionResult::Revert`, with the bytes it returned.
    Revert(Vec<u8>),
    /// `ExecutionResult::Halt`, with the reason as `Debug` prints it.
    Halt(String),
}

/// How an outcome ended, without its gas and its logs.
pub open spec fn verdict_of(outcome: ExecutionOutcome) -> Verdict {
    match outcome {
        ExecutionOutcome::Success { output, .. } => Verdict::Success(output),
        ExecutionOutcome::Revert { output, .. } => Verdict::Revert(output),
        ExecutionOutcome::Halt { reason, .. } => Verdict::Halt(reason),
    }
}

/// The gas that an outcome used.
pub open spec fn gas_of(outcome: ExecutionOutcome) -> u64 {
    match outcome {
        ExecutionOutcome::Success { gas_used, .. } => gas_used,
        ExecutionOutcome::Revert { gas_used, .. } => gas_used,
        ExecutionOutcome::Halt { gas_used, .. } => gas_used,
    }
}

/// The events of an outcome: those of a success, none of another.
pub open spec fn logs_of(outcome: ExecutionOutcome) -> Seq<Log> {
    match outcome {
        ExecutionOutcome::Success { logs, .. } => logs@,
        _ => Seq::empty(),
    }
}

/// Tells the variants of `revm`'s `ExecutionResult` and of its `Output` apart
/// and copies what they carry.
#[verifier::external_body]
pub(crate) fn result_verdict(done: &revm::primitives::ResultAndState) -> (verdict: Verdict)
    ensures
        verdict == verdict_of(outcome_of(*done)),
{
    match &done.result {
        revm::primitives::ExecutionResult::Success { output, .. } => Verdict::Success(
            match output {
                revm::primitives::Output::Call(data) => Output::Call(data.to_vec()),
                revm::primitives::Output::Create(code, made) => Output::Create(
                    code.to_vec(),
                    made.map(|to| Address { bytes: to.into_array() }),
                ),
            },
        ),
        revm::primitives::ExecutionResult::Revert { output, .. } => Verdict::Revert(output.to_vec()),
        revm::primitives::ExecutionResult::Halt { reason, .. } => Verdict::Halt(format!("{:?}", reason)),
    }
}

/// `ExecutionResult::gas_used`: the gas that the execution used.
#[verifier::external_body]
pub(crate) fn result_gas_used(done: &revm::primitives::ResultAndState) -> (gas_used: u64)
    ensures
        gas_used == gas_of(outcome_of(*done)),
{
    done.result.gas_used()
}

/// `ExecutionResult::logs`: the events of a successful execution, each
/// copied field by field; none for another result.
#[verifier::external_body]
pub(crate) fn result_logs(done: &revm::primitives::ResultAndState) -> (logs: Vec<Log>)
    ensures
        logs@ == logs_of(outcome_of(*done)),
        outcome_of(*done) matches ExecutionOutcome::Success { logs: held, .. } ==> logs == held,
{
    done.result.logs().iter().map(|log| Log {
        address: Address { bytes: log.address.into_array() },
        topics: log.topics().iter().map(|topic| topic.0).collect(),
        data: log.data.data.to_vec(),
    }).collect()
}

/// What `Debug` prints of the interpreter's refusal to run a transaction.
#[verifier::external_body]
pub(crate) fn fault_text(fault: &revm::primitives::EVMError<core::convert::Infallible>) -> (text:
    String)
    ensures
        text == fault_of(*fault),
{
    format!("{:?}", fault)
}

} // verus!
