use alloy_json_abi::ContractObject;
use revm_py::{
    build_contract_info, function_signature, map_function, resolve_selector, ContractInfo,
    EvmError, FunctionDeclaration, StateMutability,
};

const COUNTER: &str = r#"{
  "abi": [
    {"type": "function", "name": "decrement", "inputs": [], "outputs": [], "stateMutability": "nonpayable"},
    {"type": "function", "name": "increment", "inputs": [], "outputs": [], "stateMutability": "nonpayable"},
    {"type": "function", "name": "number", "inputs": [],
     "outputs": [{"name": "", "type": "uint256", "internalType": "uint256"}], "stateMutability": "view"},
    {"type": "function", "name": "setNumber",
     "inputs": [{"name": "newNumber", "type": "uint256", "internalType": "uint256"}],
     "outputs": [], "stateMutability": "nonpayable"}
  ],
  "bytecode": {"object": "0x605d80600b6000396000f360003560e01c", "sourceMap": "", "linkReferences": {}},
  "deployedBytecode": {"object": "0x60003560e01c", "sourceMap": "", "linkReferences": {}},
  "methodIdentifiers": {"number()": "8381f58a"}
}"#;

const VAULT: &str = r#"{
  "abi": [
    {"type": "constructor", "inputs": [], "stateMutability": "nonpayable"},
    {"type": "function", "name": "pay",
     "inputs": [
       {"name": "order", "type": "tuple", "internalType": "struct Vault.Order",
        "components": [
          {"name": "amount", "type": "uint256", "internalType": "uint256"},
          {"name": "to", "type": "address", "internalType": "address"}
        ]},
       {"name": "flags", "type": "uint8[2]", "internalType": "uint8[2]"}
     ],
     "outputs": [{"name": "", "type": "bool", "internalType": "bool"}],
     "stateMutability": "payable"},
    {"type": "function", "name": "version", "inputs": [],
     "outputs": [{"name": "", "type": "string", "internalType": "string"}], "stateMutability": "pure"}
  ]
}"#;

fn strings(items: &[&str]) -> Vec<String> {
    items.iter().map(|s| s.to_string()).collect()
}

fn declaration(name: &str, inputs: &[&str], outputs: &[&str], m: StateMutability) -> FunctionDeclaration {
    FunctionDeclaration {
        name: name.to_string(),
        inputs: strings(inputs),
        outputs: strings(outputs),
        canonical_inputs: strings(inputs),
        state_mutability: m,
    }
}

#[test]
fn parse_contract_object() {
    let raw = COUNTER;
    let co = serde_json::from_str::<ContractObject>(raw).unwrap();
    assert!(co.bytecode.is_some());
    let abi = co.abi.unwrap();
    assert_eq!(4, abi.functions.len());
    assert_eq!(0, abi.events.len());
}

#[test]
fn parse_contract_info() {
    let raw = COUNTER;
    let ci = ContractInfo::load(raw).unwrap();
    assert_eq!(4, ci.functions.len());
    assert!(ci.constructor_params.is_none());
    assert!(ci.bytecode.is_some());

    let a = &ci.functions[0];
    println!("sig: {:?}", a);
}

#[test]
fn counter_functions_are_described() {
    let ci = ContractInfo::load(COUNTER).unwrap();
    let number = ci.functions.iter().find(|f| f.name == "number").unwrap();
    assert_eq!([0x83, 0x81, 0xf5, 0x8a], number.signature);
    assert!(number.ins.is_empty());
    assert_eq!(strings(&["uint256"]), number.outs);
    assert!(!number.is_transact);
    assert!(!number.is_payable);

    let set = ci.functions.iter().find(|f| f.name == "setNumber").unwrap();
    assert_eq!([0x3f, 0xb5, 0xc1, 0xcb], set.signature);
    assert_eq!(strings(&["uint256"]), set.ins);
    assert!(set.outs.is_empty());
    assert!(set.is_transact);
    assert!(!set.is_payable);

    assert_eq!(
        Some(vec![0x60, 0x5d, 0x80, 0x60, 0x0b, 0x60, 0x00, 0x39, 0x60, 0x00, 0xf3, 0x60, 0x00, 0x35, 0x60, 0xe0, 0x1c]),
        ci.bytecode
    );
}

#[test]
fn tuple_inputs_keep_their_declared_type() {
    let ci = ContractInfo::load(VAULT).unwrap();
    assert_eq!(Some(Vec::<String>::new()), ci.constructor_params);
    assert!(ci.bytecode.is_none());
    let pay = ci.functions.iter().find(|f| f.name == "pay").unwrap();
    assert_eq!(strings(&["tuple", "uint8[2]"]), pay.ins);
    assert_eq!(strings(&["bool"]), pay.outs);
    assert_eq!([0x94, 0xec, 0xc8, 0x81], pay.signature);
    assert!(pay.is_transact);
    assert!(pay.is_payable);
    let version = ci.functions.iter().find(|f| f.name == "version").unwrap();
    assert!(!version.is_transact);
    assert!(!version.is_payable);
}

#[test]
fn bare_list_of_declarations_is_an_interface() {
    let raw = r#"[{"type":"function","name":"name","inputs":[],"outputs":[{"name":"","type":"string"}],"stateMutability":"view"}]"#;
    let ci = ContractInfo::load(raw).unwrap();
    assert_eq!(1, ci.functions.len());
    assert_eq!("name", ci.functions[0].name);
    assert_eq!([0x06, 0xfd, 0xde, 0x03], ci.functions[0].signature);
    assert!(ci.constructor_params.is_none());
    assert!(ci.bytecode.is_none());
}

#[test]
fn malformed_documents_are_rejected() {
    assert_eq!(Err(EvmError::MalformedInterface), ContractInfo::load("not json"));
    assert_eq!(Err(EvmError::MalformedInterface), ContractInfo::load(""));
    assert_eq!(Err(EvmError::MalformedInterface), ContractInfo::load(r#"{"bytecode": "0x00"}"#));
    assert_eq!(
        Err(EvmError::MalformedInterface),
        ContractInfo::load(r#"{"abi": [{"type": "function", "name": "f", "inputs": 7}]}"#)
    );
    assert_eq!(Err(EvmError::MalformedInterface), ContractInfo::load("42"));
}

#[test]
fn selector_of_transfer_is_the_published_constant() {
    assert_eq!([0xa9, 0x05, 0x9c, 0xbb], resolve_selector("transfer(address,uint256)"));
}

#[test]
fn selector_derivation_is_deterministic() {
    let first = resolve_selector("balanceOf(address)");
    let second = resolve_selector("balanceOf(address)");
    assert_eq!(first, second);
    assert_eq!([0x70, 0xa0, 0x82, 0x31], first);
    assert_ne!(first, resolve_selector("balanceOf(address) "));
}

#[test]
fn signature_is_name_and_types_without_spaces() {
    assert_eq!(
        "transfer(address,uint256)",
        function_signature("transfer", &strings(&["address", "uint256"]))
    );
    assert_eq!("number()", function_signature("number", &Vec::new()));
    assert_eq!("setNumber(uint256)", function_signature("setNumber", &strings(&["uint256"])));
    assert_eq!(
        "f(uint8,(bool,bytes)[],string)",
        function_signature("f", &strings(&["uint8", "(bool,bytes)[]", "string"]))
    );
}

#[test]
fn mutability_collapses_to_two_flags() {
    let pure_fn = map_function(declaration("a", &[], &[], StateMutability::Pure));
    assert_eq!((false, false), (pure_fn.is_transact, pure_fn.is_payable));
    let view_fn = map_function(declaration("a", &[], &[], StateMutability::View));
    assert_eq!((false, false), (view_fn.is_transact, view_fn.is_payable));
    let plain = map_function(declaration("a", &[], &[], StateMutability::NonPayable));
    assert_eq!((true, false), (plain.is_transact, plain.is_payable));
    let payable = map_function(declaration("a", &[], &[], StateMutability::Payable));
    assert_eq!((true, true), (payable.is_transact, payable.is_payable));
}

#[test]
fn descriptor_keeps_name_types_and_selector() {
    let f = map_function(declaration(
        "mint",
        &["address", "uint256"],
        &["bool"],
        StateMutability::NonPayable,
    ));
    assert_eq!("mint", f.name);
    assert_eq!([0x40, 0xc1, 0x0f, 0x19], f.signature);
    assert_eq!(strings(&["address", "uint256"]), f.ins);
    assert_eq!(strings(&["bool"]), f.outs);
}

#[test]
fn descriptors_follow_the_declarations_in_order() {
    let declared = vec![
        declaration("transfer", &["address", "uint256"], &["bool"], StateMutability::NonPayable),
        declaration("number", &[], &["uint256"], StateMutability::View),
    ];
    let (functions, constructor) = build_contract_info(declared, Some(strings(&["uint8"])));
    assert_eq!(2, functions.len());
    assert_eq!("transfer", functions[0].name);
    assert_eq!([0xa9, 0x05, 0x9c, 0xbb], functions[0].signature);
    assert_eq!("number", functions[1].name);
    assert_eq!([0x83, 0x81, 0xf5, 0x8a], functions[1].signature);
    assert_eq!(Some(strings(&["uint8"])), constructor);

    let (none, no_constructor) = build_contract_info(Vec::new(), None);
    assert!(none.is_empty());
    assert!(no_constructor.is_none());
}

#[test]
fn interface_from_declarations_keeps_constructor_and_bytecode() {
    let info = ContractInfo::from_declarations(
        vec![declaration("name", &[], &["string"], StateMutability::View)],
        Some(Vec::new()),
        Some(vec![1, 2, 3]),
    );
    assert_eq!(1, info.functions.len());
    assert_eq!(Some(Vec::<String>::new()), info.constructor_params);
    assert_eq!(Some(vec![1, 2, 3]), info.bytecode);
}

#[test]
fn document_with_an_array_too_large_is_rejected() {
    let raw = r#"[{"type":"function","name":"f","inputs":[{"name":"xs","type":"uint8[99999999999999999999999999]"}],"outputs":[],"stateMutability":"view"}]"#;
    assert_eq!(Err(EvmError::MalformedInterface), ContractInfo::load(raw));
}

#[test]
fn selector_is_taken_from_the_canonical_types() {
    let f = map_function(FunctionDeclaration {
        name: "pay".to_string(),
        inputs: strings(&["tuple", "uint8[2]"]),
        outputs: strings(&["tuple[]"]),
        canonical_inputs: strings(&["(uint256,address)", "uint8[2]"]),
        state_mutability: StateMutability::Payable,
    });
    assert_eq!([0x94, 0xec, 0xc8, 0x81], f.signature);
    assert_eq!(strings(&["tuple", "uint8[2]"]), f.ins);
    assert_eq!(strings(&["tuple[]"]), f.outs);
}

#[test]
fn selector_is_the_head_of_the_digest() {
    let mut digest = [0u8; 32];
    for (i, byte) in digest.iter_mut().enumerate() {
        *byte = 0xa0 + i as u8;
    }
    assert_eq!([0xa0, 0xa1, 0xa2, 0xa3], revm_py::selector_bytes(&digest));
    assert_eq!([0, 0, 0, 0], revm_py::selector_bytes(&[0u8; 32]));
}

fn document_with_type(text: &str) -> String {
    format!(
        r#"{{"abi":[{{"type":"function","name":"f","inputs":[{{"name":"x","type":"{}"}}],"outputs":[],"stateMutability":"view"}}]}}"#,
        text
    )
}

#[test]
fn deeply_nested_type_is_rejected() {
    let deep = "(".repeat(10000);
    assert_eq!(Err(EvmError::MalformedInterface), ContractInfo::load(&document_with_type(&deep)));
    let escaped = "\\u0028".repeat(10000);
    assert_eq!(Err(EvmError::MalformedInterface), ContractInfo::load(&document_with_type(&escaped)));
    let just_over = format!("{}uint8{}", "(".repeat(65), ")".repeat(65));
    assert_eq!(Err(EvmError::MalformedInterface), ContractInfo::load(&document_with_type(&just_over)));
}

#[test]
fn nested_tuples_within_the_bound_are_read() {
    let nested = format!("{}uint8{}", "(".repeat(8), ")".repeat(8));
    let info = ContractInfo::load(&document_with_type(&nested)).unwrap();
    assert_eq!(strings(&[nested.as_str()]), info.functions[0].ins);
}

#[test]
fn escaped_texts_beside_the_declarations_are_passed_over() {
    let raw = r#"{
      "abi": [{"type":"function","name":"number","inputs":[],"outputs":[{"name":"","type":"uint256"}],"stateMutability":"view"}],
      "bytecode": {"object": "0x6080"},
      "rawMetadata": "{\"compiler\":{\"version\":\"0.8.21\"},\"output\":{\"devdoc\":{\"methods\":{\"a(uint256)\":{},\"b((uint8,bool))\":{},\"c()\":{}}}},\"note\":\"line\\nbreak \\\\ (((\"}",
      "methodIdentifiers": {"number()": "8381f58a"}
    }"#;
    let info = ContractInfo::load(raw).unwrap();
    assert_eq!(1, info.functions.len());
    assert_eq!([0x83, 0x81, 0xf5, 0x8a], info.functions[0].signature);
    assert_eq!(Some(vec![0x60, 0x80]), info.bytecode);
}

#[test]
fn deep_texts_are_found() {
    assert!(!revm_py::abis::has_deep_text(""));
    assert!(!revm_py::abis::has_deep_text(&"(".repeat(1000)));
    assert!(!revm_py::abis::has_deep_text(&format!("\"{}\"", "(".repeat(64))));
    assert!(revm_py::abis::has_deep_text(&format!("\"{}\"", "(".repeat(65))));
    assert!(!revm_py::abis::has_deep_text(&format!("\"{}\"", "()".repeat(1000))));
    assert!(!revm_py::abis::has_deep_text(&format!("\"{}\"", "(\",\"".repeat(1000))));
    assert!(revm_py::abis::has_deep_text(&format!("\"{}\"", "(\\\"".repeat(65))));
    assert!(revm_py::abis::has_deep_text(&format!("\"{}\"", "\\u0028".repeat(65))));
    assert!(!revm_py::abis::has_deep_text(&format!("\"{}\"", "\\n".repeat(1000))));
}
