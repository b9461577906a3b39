//! Function descriptors: what a caller needs to know of each function that a
//! contract's interface declares.

use vstd::prelude::*;
use vstd::string::{StringExecFns, StringSliceAdditionalSpecFns};
use crate::error::EvmError;

verus! {

/// What a function promises about the state it touches.
#[derive(Clone, Copy, Debug, PartialEq, Eq)]
pub enum StateMutability {
    /// Neither reads nor changes state.
    Pure,
    /// Reads state and changes none.
    View,
    /// Changes state and takes no payment.
    NonPayable,
    /// Changes state and takes payment.
    Payable,
}

/// One function as an interface document declares it.
#[derive(Clone, Debug, PartialEq, Eq)]
pub struct FunctionDeclaration {
    /// The name of the function.
    pub name: String,
    /// The type of each input as it is declared, in the declared order. A
    /// tuple is declared as `tuple`, with `[]` behind it for each array of
    /// tuples.
    pub inputs: Vec<String>,
    /// The type of each output as it is declared, in the declared order.
    pub outputs: Vec<String>,
    /// The canonical type of each input, in the declared order: a tuple is
    /// written as the types of its members between round brackets.
    pub canonical_inputs: Vec<String>,
    /// The declared mutability.
    pub state_mutability: StateMutability,
}

/// One function as a caller sees it.
#[derive(Clone, Debug, PartialEq, Eq)]
pub struct ContractFunction {
    /// The name of the function.
    pub name: String,
    /// The selector: the four bytes that route a call to the function.
    pub signature: [u8; 4],
    /// The type of each input, in order.
    pub ins: Vec<String>,
    /// The type of each output, in order.
    pub outs: Vec<String>,
    /// Whether calling the function may change state.
    pub is_transact: bool,
    /// Whether the function takes payment.
    pub is_payable: bool,
}

/// The texts that a sequence of strings holds.
pub open spec fn texts(strings: Seq<String>) -> Seq<Seq<char>> {
    strings.map_values(|s: String| s@)
}

/// Type names in a row with a comma between each two.
pub open spec fn joined_types(types: Seq<Seq<char>>) -> Seq<char>
    decreases types.len(),
{
    if types.len() == 0 {
        Seq::empty()
    } else if types.len() == 1 {
        types[0]
    } else {
        joined_types(types.drop_last()) + seq![','] + types.last()
    }
}

/// The canonical signature of a function: its name, then the types of its
/// inputs between round brackets, with commas and without spaces.
pub open spec fn signature_text(name: Seq<char>, inputs: Seq<Seq<char>>) -> Seq<char> {
    name + seq!['('] + joined_types(inputs) + seq![')']
}

/// The Keccak-256 digest of a sequence of bytes.
pub uninterp spec fn keccak256_digest(data: Seq<u8>) -> Seq<u8>;

/// The selector of a canonical signature: the first four bytes of the
/// Keccak-256 digest of its UTF-8 encoding.
pub open spec fn selector_of(signature: Seq<char>) -> Seq<u8> {
    keccak256_digest(vstd::utf8::encode_utf8(signature)).subrange(0, 4)
}

/// `ethers_core::utils::keccak256`: the Keccak-256 digest of the bytes, which
/// has 32 bytes.
#[verifier::external_body]
fn keccak256(data: &[u8]) -> (digest: [u8; 32])
    ensures
        digest@ == keccak256_digest(data@),
{
    ethers_core::utils::keccak256(data)
}

/// Writes the canonical signature of a function from its name and the types
/// of its inputs.
pub fn function_signature(name: &str, inputs: &Vec<String>) -> (signature: String)
    ensures
        signature@ == signature_text(name@, texts(inputs@)),
{
    proof {
        reveal_strlit("(");
        reveal_strlit(")");
        reveal_strlit(",");
    }
    let mut signature = String::from_str(name);
    signature.append("(");
    assert("("@ =~= seq!['(']);
    assert(","@ =~= seq![',']);
    assert(")"@ =~= seq![')']);
    let mut i: usize = 0;
    while i < inputs.len()
        invariant
            0 <= i <= inputs.len(),
            ","@ == seq![','],
            signature@ == name@ + seq!['('] + joined_types(texts(inputs@).take(i as int)),
        decreases inputs.len() - i,
    {
        let ghost before = texts(inputs@).take(i as int);
        let ghost after = texts(inputs@).take(i + 1);
        assert(after.drop_last() =~= before);
        assert(after.last() == inputs@[i as int]@);
        if i > 0 {
            signature.append(",");
        }
        signature.append(inputs[i].as_str());
        assert(signature@ =~= name@ + seq!['('] + joined_types(after));
        i = i + 1;
    }
    assert(texts(inputs@).take(inputs.len() as int) =~= texts(inputs@));
    signature.append(")");
    signature
}

/// The selector that a digest gives: its first four bytes.
pub fn selector_bytes(digest: &[u8; 32]) -> (selector: [u8; 4])
    ensures
        selector@ == digest@.subrange(0, 4),
{
    let selector = [digest[0], digest[1], digest[2], digest[3]];
    assert(selector@ =~= digest@.subrange(0, 4));
    selector
}

/// Derives the selector of a canonical signature such as
/// `transfer(address,uint256)`: the first four bytes of its Keccak-256
/// digest.
pub fn resolve_selector(signature: &str) -> (selector: [u8; 4])
    ensures
        selector@ == selector_of(signature@),
{
    let digest = keccak256(signature.as_bytes());
    selector_bytes(&digest)
}

/// Whether a function of this mutability may change state: every one may,
/// unless it is declared pure or view.
pub open spec fn changes_state(mutability: StateMutability) -> bool {
    !(mutability is Pure || mutability is View)
}

/// Whether a descriptor is the one that belongs to a declaration.
pub open spec fn describes(f: ContractFunction, declared: FunctionDeclaration) -> bool {
    &&& f.name@ == declared.name@
    &&& f.signature@ == selector_of(
        signature_text(declared.name@, texts(declared.canonical_inputs@)),
    )
    &&& texts(f.ins@) == texts(declared.inputs@)
    &&& texts(f.outs@) == texts(declared.outputs@)
    &&& f.is_transact == changes_state(declared.state_mutability)
    &&& f.is_payable == (declared.state_mutability is Payable)
}

/// Turns a declaration into the descriptor that callers use: name and types
/// as declared, the selector of the signature written with the canonical
/// types, and the two flags that the declared mutability collapses to.
pub fn map_function(f: FunctionDeclaration) -> (func_out: ContractFunction)
    ensures
        describes(func_out, f),
        func_out.name == f.name,
        func_out.ins == f.inputs,
        func_out.outs == f.outputs,
{
    let signature = resolve_selector(
        function_signature(f.name.as_str(), &f.canonical_inputs).as_str(),
    );
    let (is_transact, is_payable) = match f.state_mutability {
        StateMutability::Pure | StateMutability::View => (false, false),
        StateMutability::Payable => (true, true),
        StateMutability::NonPayable => (true, false),
    };
    ContractFunction {
        name: f.name,
        signature,
        ins: f.inputs,
        outs: f.outputs,
        is_transact,
        is_payable,
    }
}

/// Whether a descriptor is consistent in itself: it takes payment only if
/// it may change state.
pub open spec fn coherent(f: ContractFunction) -> bool {
    f.is_payable ==> f.is_transact
}

/// The descriptor of a declaration is consistent in itself.
pub proof fn lemma_described_is_coherent(f: ContractFunction, declared: FunctionDeclaration)
    requires
        describes(f, declared),
    ensures
        coherent(f),
{
}

/// Describes every declared function, in the order of the declarations, and
/// hands the constructor's input types on as they are.
pub fn build_contract_info(
    functions: Vec<FunctionDeclaration>,
    constructor: Option<Vec<String>>,
) -> (r: (Vec<ContractFunction>, Option<Vec<String>>))
    ensures
        r.0@.len() == functions@.len(),
        forall|i: int| 0 <= i < functions@.len() ==> describes(#[trigger] r.0@[i], functions@[i]),
        r.1 == constructor,
{
    let mut funcs: Vec<ContractFunction> = Vec::new();
    let ghost declared = functions@;
    for f in it: functions
        invariant
            it.seq() == declared,
            funcs@.len() == it.index(),
            forall|i: int| 0 <= i < funcs@.len() ==> describes(#[trigger] funcs@[i], declared[i]),
    {
        funcs.push(map_function(f));
    }
    (funcs, constructor)
}

/// Copies a list of type names.
pub fn clone_types(types: &Vec<String>) -> (copy: Vec<String>)
    ensures
        texts(copy@) == texts(types@),
{
    let mut copy: Vec<String> = Vec::new();
    let mut i: usize = 0;
    while i < types.len()
        invariant
            0 <= i <= types.len(),
            copy@.len() == i,
            forall|j: int| 0 <= j < i ==> copy@[j]@ == types@[j]@,
        decreases types.len() - i,
    {
        copy.push(types[i].clone());
        i = i + 1;
    }
    assert(texts(copy@) =~= texts(types@));
    copy
}

/// What an interface document tells of a contract: a descriptor for each
/// function, the input types of the constructor if one is declared, and the
/// bytecode if the document carries it.
#[derive(Clone, Debug, PartialEq, Eq)]
pub struct ContractInfo {
    /// The functions, in the order in which the document's reader yields them.
    pub functions: Vec<ContractFunction>,
    /// The input types of the constructor; `None` where none is declared.
    pub constructor_params: Option<Vec<String>>,
    /// The bytecode to deploy; `None` where the document has none.
    pub bytecode: Option<Vec<u8>>,
}

/// `alloy_json_abi`'s contract object: the declarations of an interface with,
/// optionally, the bytecode.
#[verifier::external_type_specification]
#[verifier::external_body]
pub struct ExContractObject(alloy_json_abi::ContractObject);

/// Why `serde_json` could not read a text.
#[verifier::external_type_specification]
#[verifier::external_body]
pub struct ExJsonError(serde_json::Error);

/// What a contract object holds, as far as the library reads it.
#[derive(Clone, Debug, PartialEq, Eq)]
pub struct InterfaceDocument {
    /// The declared functions, overloads of one name in the declared order;
    /// `None` where the object has no list of declarations.
    pub functions: Option<Vec<FunctionDeclaration>>,
    /// The declared type of each input of the constructor; `None` where
    /// none is declared.
    pub constructor: Option<Vec<String>>,
    /// The bytecode; `None` where the object has none.
    pub bytecode: Option<Vec<u8>>,
}

/// What a contract object holds: its functions as `JsonAbi::functions`
/// yields them, the inputs of its constructor, and its bytecode.
pub uninterp spec fn document_of(object: alloy_json_abi::ContractObject) -> InterfaceDocument;

/// What reading a text as a contract object yields: what the object holds,
/// or `None` where the text is no JSON document of that shape.
pub uninterp spec fn parsed_document(raw: Seq<char>) -> Option<InterfaceDocument>;

/// Where a place of a JSON document lies.
#[derive(Clone, Copy, Debug, PartialEq, Eq)]
pub enum ScanMode {
    /// Outside every text.
    Outside,
    /// Inside a text between double quotes.
    Inside,
    /// Inside a text, right behind a backslash.
    Escaped,
}

/// Where the reader of a document stands once it has passed a byte.
pub open spec fn mode_behind(before: ScanMode, byte: u8) -> ScanMode {
    match before {
        ScanMode::Outside => if byte == 0x22 {
            ScanMode::Inside
        } else {
            ScanMode::Outside
        },
        ScanMode::Inside => if byte == 0x22 {
            ScanMode::Outside
        } else if byte == 0x5c {
            ScanMode::Escaped
        } else {
            ScanMode::Inside
        },
        ScanMode::Escaped => ScanMode::Inside,
    }
}

/// How deep in round brackets the reader may be once it has passed a byte.
/// Inside a text, `(` goes one deeper and `)` one back; an escape with `u`
/// counts as a `(`, since it may spell one; outside a text the depth is
/// zero.
pub open spec fn nesting_behind(before: ScanMode, depth: nat, byte: u8) -> nat {
    match before {
        ScanMode::Outside => 0,
        ScanMode::Inside => if byte == 0x28 {
            depth + 1
        } else if byte == 0x29 && depth > 0 {
            (depth - 1) as nat
        } else {
            depth
        },
        ScanMode::Escaped => if byte == 0x75 {
            depth + 1
        } else {
            depth
        },
    }
}

/// Where a place of a document lies: outside or inside a text.
pub open spec fn mode_at(bytes: Seq<u8>, place: int) -> ScanMode
    decreases place,
{
    if place <= 0 {
        ScanMode::Outside
    } else {
        mode_behind(mode_at(bytes, place - 1), bytes[place - 1])
    }
}

/// How deep in round brackets a place of a document may lie within its
/// text.
pub open spec fn nesting_at(bytes: Seq<u8>, place: int) -> nat
    decreases place,
{
    if place <= 0 {
        0
    } else {
        nesting_behind(mode_at(bytes, place - 1), nesting_at(bytes, place - 1), bytes[place - 1])
    }
}

/// The deepest nesting of round brackets that a text of a document may
/// have.
pub const MAX_NESTING: usize = 64;

/// Whether no text of a document nests its round brackets deeper than
/// `MAX_NESTING`.
pub open spec fn texts_shallow(bytes: Seq<u8>) -> bool {
    forall|place: int| 0 <= place <= bytes.len() ==> #[trigger] nesting_at(bytes, place) <= MAX_NESTING
}

/// Whether some text of a document nests its round brackets deeper than
/// `MAX_NESTING`.
pub fn has_deep_text(raw: &str) -> (found: bool)
    ensures
        found == !texts_shallow(raw.spec_bytes()),
{
    let bytes = raw.as_bytes();
    let mut mode = ScanMode::Outside;
    let mut depth: usize = 0;
    let mut i: usize = 0;
    while i < bytes.len()
        invariant
            0 <= i <= bytes.len(),
            bytes@ == raw.spec_bytes(),
            mode == mode_at(bytes@, i as int),
            depth == nesting_at(bytes@, i as int),
            forall|place: int| 0 <= place <= i ==> #[trigger] nesting_at(bytes@, place) <= MAX_NESTING,
        decreases bytes.len() - i,
    {
        let byte = bytes[i];
        let deeper = match mode {
            ScanMode::Outside => false,
            ScanMode::Inside => byte == 0x28,
            ScanMode::Escaped => byte == 0x75,
        };
        if deeper && depth == MAX_NESTING {
            assert(nesting_at(bytes@, i + 1) > MAX_NESTING);
            return true;
        }
        depth = match mode {
            ScanMode::Outside => 0,
            ScanMode::Inside => if byte == 0x28 {
                depth + 1
            } else if byte == 0x29 && depth > 0 {
                depth - 1
            } else {
                depth
            },
            ScanMode::Escaped => if byte == 0x75 {
                depth + 1
            } else {
                depth
            },
        };
        mode = match mode {
            ScanMode::Outside => if byte == 0x22 {
                ScanMode::Inside
            } else {
                ScanMode::Outside
            },
            ScanMode::Inside => if byte == 0x22 {
                ScanMode::Outside
            } else if byte == 0x5c {
                ScanMode::Escaped
            } else {
                ScanMode::Inside
            },
            ScanMode::Escaped => ScanMode::Inside,
        };
        i = i + 1;
    }
    false
}

/// `serde_json::from_str` for `alloy_json_abi::ContractObject`: reads a
/// contract object, or a bare list of declarations, from JSON text. The
/// same text always reads as the same object, or fails.
///
/// The reader checks the text of each `type` with
/// `alloy_sol_type_parser::TypeSpecifier::parse`, which calls itself once
/// for each `(` that it is inside of. Documents with a text that nests
/// round brackets deeper than `MAX_NESTING` are left out, so that the
/// parser cannot run out of stack.
#[verifier::external_body]
fn parse_contract_object(raw: &str) -> (r: Result<alloy_json_abi::ContractObject, serde_json::Error>)
    requires
        texts_shallow(raw.spec_bytes()),
    ensures
        r is Ok == parsed_document(raw@) is Some,
        r matches Ok(object) ==> parsed_document(raw@) == Some(document_of(object)),
{
    serde_json::from_str::<alloy_json_abi::ContractObject>(raw)
}

/// `JsonAbi::functions` of the object's `abi`, each function copied out with
/// its name, the `ty` of each input and output, the canonical type of each
/// input as `Param::selector_type` gives it, and its mutability. `None`
/// where the object has no `abi`.
#[verifier::external_body]
fn declared_functions(document: &alloy_json_abi::ContractObject) -> (functions: Option<
    Vec<FunctionDeclaration>,
>)
    ensures
        functions == document_of(*document).functions,
{
    let abi = document.abi.as_ref()?;
    Some(abi.functions().map(|f| FunctionDeclaration {
        name: f.name.clone(),
        inputs: f.inputs.iter().map(|p| p.ty.clone()).collect(),
        outputs: f.outputs.iter().map(|p| p.ty.clone()).collect(),
        canonical_inputs: f.inputs.iter().map(|p| p.selector_type().into_owned()).collect(),
        state_mutability: match f.state_mutability {
            alloy_json_abi::StateMutability::Pure => StateMutability::Pure,
            alloy_json_abi::StateMutability::View => StateMutability::View,
            alloy_json_abi::StateMutability::NonPayable => StateMutability::NonPayable,
            alloy_json_abi::StateMutability::Payable => StateMutability::Payable,
        },
    }).collect())
}

/// The `ty` of each input of the `constructor` of the object's `abi`;
/// `None` where there is no `abi` or it declares no constructor.
#[verifier::external_body]
fn declared_constructor(document: &alloy_json_abi::ContractObject) -> (types: Option<Vec<String>>)
    ensures
        types == document_of(*document).constructor,
{
    let constructor = document.abi.as_ref()?.constructor.as_ref()?;
    Some(constructor.inputs.iter().map(|p| p.ty.clone()).collect())
}

/// The bytes of the object's `bytecode`, if it has one.
#[verifier::external_body]
fn declared_bytecode(document: &alloy_json_abi::ContractObject) -> (code: Option<Vec<u8>>)
    ensures
        code == document_of(*document).bytecode,
{
    document.bytecode.as_ref().map(|code| code.to_vec())
}

impl ContractInfo {
    /// Whether every descriptor is consistent in itself.
    pub open spec fn well_formed(&self) -> bool {
        forall|i: int| 0 <= i < self.functions@.len() ==> coherent(#[trigger] self.functions@[i])
    }

    /// Whether this is the interface of a contract with the given
    /// declarations: a descriptor for each declared function, in order, and
    /// the constructor's input types and the bytecode as they are given.
    pub open spec fn holds(
        &self,
        functions: Vec<FunctionDeclaration>,
        constructor: Option<Vec<String>>,
        bytecode: Option<Vec<u8>>,
    ) -> bool {
        &&& self.functions@.len() == functions@.len()
        &&& forall|i: int|
            0 <= i < functions@.len() ==> describes(#[trigger] self.functions@[i], functions@[i])
        &&& self.constructor_params == constructor
        &&& self.bytecode == bytecode
    }

    /// What loading a document yields: the interface of what the document
    /// holds, where it has a list of declarations.
    pub open spec fn loaded(r: Result<ContractInfo, EvmError>, document: Option<InterfaceDocument>) -> bool {
        match document {
            Some(InterfaceDocument { functions: Some(functions), constructor, bytecode }) => {
                r matches Ok(info) && info.holds(functions, constructor, bytecode)
            },
            _ => r matches Err(EvmError::MalformedInterface),
        }
    }

    /// The interface of a contract with the given declarations: a descriptor
    /// for each declared function, in order, with the constructor's input
    /// types and the bytecode as they are given.
    pub fn from_declarations(
        functions: Vec<FunctionDeclaration>,
        constructor: Option<Vec<String>>,
        bytecode: Option<Vec<u8>>,
    ) -> (info: ContractInfo)
        ensures
            info.functions@.len() == functions@.len(),
            forall|i: int|
                0 <= i < functions@.len() ==> describes(#[trigger] info.functions@[i], functions@[i]),
            info.constructor_params == constructor,
            info.bytecode == bytecode,
            info.well_formed(),
    {
        let (fns, cp) = build_contract_info(functions, constructor);
        ContractInfo { functions: fns, constructor_params: cp, bytecode }
    }

    /// Reads the interface of a contract from a JSON document: an object
    /// with the declarations under `abi` and, optionally, the bytecode; or
    /// the list of declarations alone. A text that is no such document, or
    /// an object without `abi`, is rejected as malformed, and so is a
    /// document with a text that nests round brackets deeper than
    /// `MAX_NESTING`.
    pub fn load(raw: &str) -> (r: Result<ContractInfo, EvmError>)
        ensures
            texts_shallow(raw.spec_bytes()) ==> Self::loaded(r, parsed_document(raw@)),
            !texts_shallow(raw.spec_bytes()) ==> r matches Err(EvmError::MalformedInterface),
            r matches Ok(info) ==> info.well_formed(),
            r matches Err(e) ==> e is MalformedInterface,
    {
        if has_deep_text(raw) {
            return Err(EvmError::MalformedInterface);
        }
        let document = match parse_contract_object(raw) {
            Ok(document) => document,
            Err(_) => {
                return Err(EvmError::MalformedInterface);
            },
        };
        match declared_functions(&document) {
            Some(functions) => Ok(
                ContractInfo::from_declarations(
                    functions,
                    declared_constructor(&document),
                    declared_bytecode(&document),
                ),
            ),
            None => Err(EvmError::MalformedInterface),
        }
    }
}

} // verus!
