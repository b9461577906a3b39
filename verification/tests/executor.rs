use ethers_core::abi::{Abi, JsonAbi, Token};
use ethers_core::types::H160;
use revm_py::{
    Address, Backend, BasicClient, ContractInfo, EvmError, ExecutionOutcome, Executor, Output,
    TransactTo, TxEnv, U256,
};

const BANK_RESERVE: &str = r#"{
  "abi": [
    {"type": "constructor",
     "inputs": [{"name": "reserve", "type": "uint256", "internalType": "uint256"}],
     "stateMutability": "nonpayable"},
    {"type": "function", "name": "depositToSavings", "inputs": [], "outputs": [],
     "stateMutability": "payable"},
    {"type": "function", "name": "savings",
     "inputs": [{"name": "", "type": "address", "internalType": "address"}],
     "outputs": [{"name": "", "type": "uint256", "internalType": "uint256"}],
     "stateMutability": "view"},
    {"type": "event", "name": "Deposited",
     "inputs": [{"name": "amount", "type": "uint256", "indexed": false, "internalType": "uint256"}],
     "anonymous": true}
  ],
  "bytecode": {"object": "0x605d80600b6000396000f360003560e01c80638180b07314601e5780631f7cdd5f14605057600080fd5b335434013355346000527f2da466a7b24304f47e87fa2e1e5a81b9831ce54fec19055ce277ca2f39ba42c460206000a1005b6004355460005260206000f3"}
}"#;

const TOPIC: [u8; 32] = [
    0x2d, 0xa4, 0x66, 0xa7, 0xb2, 0x43, 0x04, 0xf4, 0x7e, 0x87, 0xfa, 0x2e, 0x1e, 0x5a, 0x81, 0xb9,
    0x83, 0x1c, 0xe5, 0x4f, 0xec, 0x19, 0x05, 0x5c, 0xe2, 0x77, 0xca, 0x2f, 0x39, 0xba, 0x42, 0xc4,
];

fn word(x: u64) -> Vec<u8> {
    let mut bytes = vec![0u8; 24];
    bytes.extend_from_slice(&x.to_be_bytes());
    bytes
}

fn bank(evm: &mut Executor, deployer: Address) -> Address {
    let info = ContractInfo::load(BANK_RESERVE).unwrap();
    let mut code = info.bytecode.unwrap();
    code.extend_from_slice(&word(5000));
    let (made, gas) = evm.deploy(TxEnv::create(deployer, code, U256::zero())).unwrap();
    assert!(gas > 0);
    made
}

#[test]
fn basics() {
    let bob = Address::from_low_u64_be(1);
    let alice = Address::from_low_u64_be(2);
    let bal = U256::from_u64(1000000);

    let mut evm = Executor::new();
    assert!(evm.create_account(bob, Some(bal)).is_ok());
    assert!(evm.create_account(alice, Some(bal)).is_ok());

    assert_eq!(bal, evm.get_balance(bob));
    assert_eq!(bal, evm.get_balance(alice));

    let mut tx = TxEnv::default();
    tx.caller = bob;
    tx.transact_to = TransactTo::Call(alice);
    tx.value = U256::from_u64(50);

    let r = evm.transact(tx);
    assert!(r.is_ok());

    let result = evm.get_balance(alice);
    assert_eq!(U256::from_u64(1000050), result);

    let result2 = evm.get_balance(bob);
    assert_eq!(U256::from_u64(999950), result2);
}

#[test]
fn contract_read_write() {
    let raw = BANK_RESERVE;
    let (a, b) = match serde_json::from_str::<JsonAbi>(raw) {
        Ok(JsonAbi::Object(o)) => {
            let abi1 = serde_json::to_string(&o.abi).unwrap();
            let abi = serde_json::from_str::<Abi>(&abi1).unwrap();
            if o.bytecode.is_none() {
                panic!("missing bytecode")
            }
            (abi, o.bytecode.unwrap().to_vec())
        }
        _ => panic!("expected a full contract metadata json file"),
    };

    let contract = a;

    let bob = Address::from_low_u64_be(1);
    let deployer = Address::from_low_u64_be(2);
    let bal = U256::from_u64(5000000000000000000u64);

    let mut evm = Executor::new();
    assert!(evm.create_account(bob, Some(bal)).is_ok());
    assert!(evm.create_account(deployer, Some(bal)).is_ok());

    // Encode deploy bytecode
    let bincode = contract
        .constructor()
        .unwrap()
        .encode_input(b, &[Token::Uint(5000usize.into())])
        .unwrap();
    let mut tx = TxEnv::default();
    tx.caller = deployer;
    tx.transact_to = TransactTo::Create;
    tx.data = bincode;

    let (ca, _) = evm.deploy(tx).unwrap();
    println!("{:?}", ca);

    // Do Write
    let encoded_write = contract.function("depositToSavings").unwrap().encode_input(&[]).unwrap();
    let mut write_tx = TxEnv::default();
    write_tx.caller = bob;
    write_tx.transact_to = TransactTo::Call(ca);
    write_tx.value = U256::from_u64(1000000000000000000u64);
    write_tx.data = encoded_write.to_vec();

    let (_, g0, _) = evm.transact(write_tx).unwrap();
    assert!(g0 > 0);

    // Do Read
    // encode
    let encoded_read = contract
        .function("savings")
        .unwrap()
        .encode_input(&[Token::Address(H160::from_low_u64_be(1))])
        .unwrap();
    let mut read_tx = TxEnv::default();
    read_tx.caller = bob;
    read_tx.transact_to = TransactTo::Call(ca);
    read_tx.data = encoded_read.to_vec();

    let (r, _, _) = evm.call(read_tx).unwrap();

    // decode
    let decoded = contract.function("savings").unwrap().decode_output(&r).unwrap();
    let b = decoded[0].clone().into_uint().unwrap().as_u128();
    assert_eq!(1000000000000000000u128, b);
}

#[test]
fn unknown_address_has_no_balance() {
    let mut evm = Executor::new();
    assert_eq!(U256::zero(), evm.get_balance(Address::zero()));
    assert_eq!(U256::zero(), evm.get_balance(Address::from_low_u64_be(77)));
    evm.create_account(Address::from_low_u64_be(1), Some(U256::from_u64(5))).unwrap();
    assert_eq!(U256::zero(), evm.get_balance(Address::from_low_u64_be(77)));
}

#[test]
fn creating_an_account_again_replaces_the_balance() {
    let a = Address::from_low_u64_be(1);
    let b = Address::from_low_u64_be(2);
    let mut evm = Executor::new();
    evm.create_account(a, Some(U256::from_u64(10))).unwrap();
    evm.create_account(b, Some(U256::from_limbs([1, 2, 3, 4]))).unwrap();
    assert_eq!(U256::from_limbs([1, 2, 3, 4]), evm.get_balance(b));
    evm.create_account(a, Some(U256::from_u64(3))).unwrap();
    assert_eq!(U256::from_u64(3), evm.get_balance(a));
    assert_eq!(U256::from_limbs([1, 2, 3, 4]), evm.get_balance(b));
    evm.create_account(a, None).unwrap();
    assert_eq!(U256::zero(), evm.get_balance(a));
}

#[test]
fn account_created_after_a_refused_transaction_keeps_its_balance() {
    let carol = Address::from_low_u64_be(3);
    let dave = Address::from_low_u64_be(4);
    let mut evm = Executor::new();

    let mut tx = TxEnv::default();
    tx.caller = carol;
    tx.transact_to = TransactTo::Call(dave);
    tx.value = U256::from_u64(7);
    let refused = evm.transact(tx);
    assert!(matches!(refused, Err(EvmError::BackendFailure(_))));
    assert_eq!(U256::zero(), evm.get_balance(carol));

    assert!(evm.create_account(carol, Some(U256::from_u64(100))).is_ok());
    assert_eq!(U256::from_u64(100), evm.get_balance(carol));
}

#[test]
fn transfer_reports_the_gas_it_used() {
    let a = Address::from_low_u64_be(0x1001);
    let b = Address::from_low_u64_be(0x1002);
    let mut evm = Executor::new();
    evm.create_account(a, Some(U256::from_u64(1000000))).unwrap();
    evm.create_account(b, Some(U256::from_u64(1000000))).unwrap();
    let (bytes, gas, logs) =
        evm.transact(TxEnv::call(a, b, Vec::new(), U256::from_u64(50))).unwrap();
    assert!(bytes.is_empty());
    assert_eq!(21000, gas);
    assert!(logs.is_empty());
    assert_eq!(U256::from_u64(1000050), evm.get_balance(b));
    assert_eq!(U256::from_u64(999950), evm.get_balance(a));
}

#[test]
fn deposit_emits_an_event() {
    let bob = Address::from_low_u64_be(1);
    let deployer = Address::from_low_u64_be(2);
    let mut evm = Executor::new();
    evm.create_account(bob, Some(U256::from_u64(1000))).unwrap();
    evm.create_account(deployer, None).unwrap();
    let ca = bank(&mut evm, deployer);

    let deposit = vec![0x81, 0x80, 0xb0, 0x73];
    let (bytes, gas, logs) =
        evm.transact(TxEnv::call(bob, ca, deposit, U256::from_u64(40))).unwrap();
    assert!(bytes.is_empty());
    assert!(gas > 21000);
    assert_eq!(1, logs.len());
    assert_eq!(ca, logs[0].address);
    assert_eq!(vec![TOPIC], logs[0].topics);
    assert_eq!(word(40), logs[0].data);
    assert_eq!(U256::from_u64(960), evm.get_balance(bob));
    assert_eq!(U256::from_u64(40), evm.get_balance(ca));
}

#[test]
fn call_leaves_the_ledger_as_it_was() {
    let bob = Address::from_low_u64_be(1);
    let deployer = Address::from_low_u64_be(2);
    let mut evm = Executor::new();
    evm.create_account(bob, Some(U256::from_u64(1000))).unwrap();
    evm.create_account(deployer, Some(U256::from_u64(1000))).unwrap();
    let ca = bank(&mut evm, deployer);

    // a call that would succeed and move value
    let deposit = vec![0x81, 0x80, 0xb0, 0x73];
    let (_, gas, logs) = evm.call(TxEnv::call(bob, ca, deposit, U256::from_u64(40))).unwrap();
    assert!(gas > 0);
    assert_eq!(1, logs.len());
    assert_eq!(U256::from_u64(1000), evm.get_balance(bob));
    assert_eq!(U256::zero(), evm.get_balance(ca));

    // a call that reverts
    let reverted = evm.call(TxEnv::call(bob, ca, vec![1, 2, 3, 4], U256::from_u64(40)));
    assert_eq!(Err(EvmError::RevertedCall(Vec::new())), reverted);
    assert_eq!(U256::from_u64(1000), evm.get_balance(bob));
    assert_eq!(U256::from_u64(1000), evm.get_balance(deployer));
    assert_eq!(U256::zero(), evm.get_balance(ca));

    // the savings are still empty
    let mut read = vec![0x1f, 0x7c, 0xdd, 0x5f];
    read.extend_from_slice(&[0u8; 12]);
    read.extend_from_slice(&bob.bytes);
    let (value, _, _) = evm.call(TxEnv::call(bob, ca, read, U256::zero())).unwrap();
    assert_eq!(word(0), value);
}

#[test]
fn reverting_deployment_fails_and_creates_nothing() {
    let deployer = Address::from_low_u64_be(2);
    let mut evm = Executor::new();
    evm.create_account(deployer, Some(U256::from_u64(1000))).unwrap();
    // PUSH1 0, PUSH1 0, REVERT
    let r = evm.deploy(TxEnv::create(deployer, vec![0x60, 0x00, 0x60, 0x00, 0xfd], U256::from_u64(10)));
    assert_eq!(Err(EvmError::RevertedCall(Vec::new())), r);
    assert_eq!(U256::from_u64(1000), evm.get_balance(deployer));

    // the same deployment with code that returns succeeds at a fresh address
    let made = bank(&mut evm, deployer);
    assert_eq!(U256::zero(), evm.get_balance(made));
}

#[test]
fn revert_hands_back_what_the_contract_returned() {
    let deployer = Address::from_low_u64_be(2);
    let mut evm = Executor::new();
    evm.create_account(deployer, None).unwrap();
    // PUSH1 0x2a, PUSH1 0, MSTORE8, PUSH1 1, PUSH1 0, REVERT
    let init = vec![0x60, 0x2a, 0x60, 0x00, 0x53, 0x60, 0x01, 0x60, 0x00, 0xfd];
    let r = evm.deploy(TxEnv::create(deployer, init, U256::zero()));
    assert_eq!(Err(EvmError::RevertedCall(vec![0x2a])), r);
}

#[test]
fn halting_deployment_names_the_reason() {
    let deployer = Address::from_low_u64_be(2);
    let mut evm = Executor::new();
    evm.create_account(deployer, None).unwrap();
    let mut tx = TxEnv::create(deployer, vec![0xfe], U256::zero());
    tx.gas_limit = 100000;
    let r = evm.deploy(tx);
    assert_eq!(Err(EvmError::HaltedCall("InvalidFEOpcode".to_string())), r);
}

#[test]
fn outcome_of_the_wrong_shape_is_unexpected() {
    let a = Address::from_low_u64_be(0x1001);
    let b = Address::from_low_u64_be(0x1002);
    let mut evm = Executor::new();
    evm.create_account(a, None).unwrap();
    // a call where a deployment was asked for
    assert_eq!(
        Err(EvmError::UnexpectedOutcome),
        evm.deploy(TxEnv::call(a, b, Vec::new(), U256::zero()))
    );
    // a creation where a call was asked for
    let init = vec![0x60, 0x00, 0x60, 0x00, 0xf3];
    assert_eq!(Err(EvmError::UnexpectedOutcome), evm.call(TxEnv::create(a, init, U256::zero())));
}

#[test]
fn client_runs_the_same_scenario() {
    let bob = Address::from_low_u64_be(0x1001);
    let deployer = Address::from_low_u64_be(0x1002);
    let mut client = BasicClient::new();
    assert_eq!(U256::zero(), client.get_balance(bob));
    client.create_account(bob, Some(U256::from_u64(1000000))).unwrap();
    client.create_account(deployer, Some(U256::from_u64(1000000))).unwrap();
    assert_eq!(U256::from_u64(1000000), client.get_balance(bob));

    let (_, gas, _) = client
        .send_transaction(TxEnv::call(bob, deployer, Vec::new(), U256::from_u64(50)))
        .unwrap();
    assert!(gas > 0);
    assert_eq!(U256::from_u64(999950), client.get_balance(bob));
    assert_eq!(U256::from_u64(1000050), client.get_balance(deployer));

    let info = ContractInfo::load(BANK_RESERVE).unwrap();
    let ca = client.deploy(TxEnv::create(deployer, info.bytecode.unwrap(), U256::zero())).unwrap();
    let deposit = vec![0x81, 0x80, 0xb0, 0x73];
    client.send_transaction(TxEnv::call(bob, ca, deposit, U256::from_u64(7))).unwrap();
    let mut read = vec![0x1f, 0x7c, 0xdd, 0x5f];
    read.extend_from_slice(&[0u8; 12]);
    read.extend_from_slice(&bob.bytes);
    let (value, gas, logs) = client.call(TxEnv::call(bob, ca, read, U256::zero())).unwrap();
    assert_eq!(word(7), value);
    assert!(gas > 21000);
    assert!(logs.is_empty());
    let shared: &BasicClient = &client;
    assert_eq!(U256::from_u64(999943), shared.get_balance(bob));
    assert_eq!(
        Err(EvmError::RevertedCall(Vec::new())),
        client.call(TxEnv::call(bob, ca, vec![0, 0, 0, 0], U256::zero()))
    );
    assert_eq!(U256::from_u64(999943), client.get_balance(bob));
}

#[test]
fn destroyed_address_can_get_an_account() {
    let deployer = Address::from_low_u64_be(0x2001);
    let mut evm = Executor::new();
    evm.create_account(deployer, Some(U256::from_u64(10))).unwrap();
    // PUSH1 0, SELFDESTRUCT: the contract destroys itself while it is created
    let (gone, _) = evm.deploy(TxEnv::create(deployer, vec![0x60, 0x00, 0xff], U256::zero())).unwrap();
    assert_eq!(U256::zero(), evm.get_balance(gone));

    evm.create_account(gone, Some(U256::from_u64(100))).unwrap();
    assert_eq!(U256::from_u64(100), evm.get_balance(gone));
    assert_eq!(U256::from_u64(10), evm.get_balance(deployer));
}

#[test]
fn failed_dispatch_leaves_the_ledger_as_it_was() {
    let deployer = Address::from_low_u64_be(0x2001);
    let bob = Address::from_low_u64_be(0x2002);
    let revert = vec![0x60, 0x00, 0x60, 0x00, 0xfd];

    let mut plain = Executor::new();
    plain.create_account(deployer, Some(U256::from_u64(1000))).unwrap();
    plain.create_account(bob, Some(U256::from_u64(1000))).unwrap();
    let expected = bank(&mut plain, deployer);

    let mut evm = Executor::new();
    evm.create_account(deployer, Some(U256::from_u64(1000))).unwrap();
    evm.create_account(bob, Some(U256::from_u64(1000))).unwrap();
    // a reverted deployment, a halted one and a refused one
    assert!(evm.deploy(TxEnv::create(deployer, revert, U256::from_u64(5))).is_err());
    let mut halting = TxEnv::create(deployer, vec![0xfe], U256::from_u64(5));
    halting.gas_limit = 100000;
    assert!(evm.deploy(halting).is_err());
    assert!(evm.deploy(TxEnv::create(deployer, Vec::new(), U256::from_u64(5000))).is_err());
    assert_eq!(U256::from_u64(1000), evm.get_balance(deployer));
    // the next deployment lands where it would have without them
    let made = bank(&mut evm, deployer);
    assert_eq!(expected, made);

    // a reverted transaction moves no value
    let r = evm.transact(TxEnv::call(bob, made, vec![1, 2, 3, 4], U256::from_u64(70)));
    assert_eq!(Err(EvmError::RevertedCall(Vec::new())), r);
    assert_eq!(U256::from_u64(1000), evm.get_balance(bob));
    assert_eq!(U256::zero(), evm.get_balance(made));
    // a creation where a call was asked for is not committed either
    let init = vec![0x60, 0x00, 0x60, 0x00, 0xf3];
    assert_eq!(
        Err(EvmError::UnexpectedOutcome),
        evm.transact(TxEnv::create(bob, init, U256::from_u64(9)))
    );
    assert_eq!(U256::from_u64(1000), evm.get_balance(bob));
}

#[test]
fn backend_reports_the_raw_outcome() {
    let a = Address::from_low_u64_be(0x2001);
    let b = Address::from_low_u64_be(0x2002);
    let mut backend = Backend::new();
    backend.create_account(a, U256::from_u64(100));
    assert_eq!(U256::from_u64(100), backend.balance(a));

    let sent = backend.execute(&TxEnv::call(a, b, Vec::new(), U256::from_u64(1)));
    assert_eq!(
        Ok(ExecutionOutcome::Success { output: Output::Call(Vec::new()), gas_used: 21000, logs: Vec::new() }),
        sent
    );
    assert_eq!(U256::from_u64(100), backend.balance(a));
    assert_eq!(U256::zero(), backend.balance(b));

    let mut tx = TxEnv::create(a, vec![0xfe], U256::zero());
    tx.gas_limit = 90000;
    assert_eq!(
        Ok(ExecutionOutcome::Halt { reason: "InvalidFEOpcode".to_string(), gas_used: 90000 }),
        backend.execute(&tx)
    );
    let reverted = backend.execute(&TxEnv::create(a, vec![0x60, 0x00, 0x60, 0x00, 0xfd], U256::zero()));
    assert!(matches!(reverted, Ok(ExecutionOutcome::Revert { gas_used, ref output }) if gas_used > 0 && output.is_empty()));

    assert_eq!(Ok((Vec::new(), 21000, Vec::new())), backend.transact(&TxEnv::call(a, b, Vec::new(), U256::from_u64(1))));
    assert_eq!(U256::from_u64(99), backend.balance(a));
    assert_eq!(U256::from_u64(1), backend.balance(b));
}

#[test]
fn cloned_client_goes_its_own_way() {
    let a = Address::from_low_u64_be(0x2001);
    let b = Address::from_low_u64_be(0x2002);
    let mut first = BasicClient::new();
    first.create_account(a, Some(U256::from_u64(100))).unwrap();
    let mut second = first.clone();
    assert_eq!(U256::from_u64(100), second.get_balance(a));
    second.send_transaction(TxEnv::call(a, b, Vec::new(), U256::from_u64(30))).unwrap();
    assert_eq!(U256::from_u64(70), second.get_balance(a));
    assert_eq!(U256::from_u64(30), second.get_balance(b));
    assert_eq!(U256::from_u64(100), first.get_balance(a));
    assert_eq!(U256::zero(), first.get_balance(b));
}

#[test]
fn creating_an_account_anew_forgets_nonce_and_code() {
    let bob = Address::from_low_u64_be(0x2002);
    let deployer = Address::from_low_u64_be(0x2001);
    let mut evm = Executor::new();
    evm.create_account(bob, Some(U256::from_u64(1000))).unwrap();
    evm.create_account(deployer, Some(U256::from_u64(1000))).unwrap();
    let ca = bank(&mut evm, deployer);

    // the deployer starts anew: its next deployment aims at the address
    // that is taken
    evm.create_account(deployer, Some(U256::from_u64(1000))).unwrap();
    let info = ContractInfo::load(BANK_RESERVE).unwrap();
    let mut again = TxEnv::create(deployer, info.bytecode.unwrap(), U256::zero());
    again.gas_limit = 1000000;
    assert_eq!(Err(EvmError::HaltedCall("CreateCollision".to_string())), evm.deploy(again));

    // the contract starts anew: nothing answers at its address any more
    evm.create_account(ca, Some(U256::from_u64(5))).unwrap();
    let mut read = vec![0x1f, 0x7c, 0xdd, 0x5f];
    read.extend_from_slice(&[0u8; 12]);
    read.extend_from_slice(&bob.bytes);
    let (value, gas, _) = evm.call(TxEnv::call(bob, ca, read, U256::zero())).unwrap();
    assert!(value.is_empty());
    assert!(gas > 0);
    assert_eq!(U256::from_u64(5), evm.get_balance(ca));
}
