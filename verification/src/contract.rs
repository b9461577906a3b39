//! Looking up, by name, what a contract's interface declares: the types that
//! a caller needs to encode inputs and decode outputs.

use vstd::prelude::*;
use vstd::string::{StringExecFns, StringSliceAdditionalSpecFns};
use crate::abis::{clone_types, texts, FunctionDeclaration, StateMutability};
use crate::error::EvmError;

verus! {

/// One event as an interface declares it.
#[derive(Clone, Debug, PartialEq, Eq)]
pub struct EventDeclaration {
    /// The name of the event.
    pub name: String,
    /// The canonical type of each input, in the declared order.
    pub inputs: Vec<String>,
}

/// `ethers_core`'s interface of a contract: its declarations by name.
#[verifier::external_type_specification]
#[verifier::external_body]
pub struct ExAbi(ethers_core::abi::Abi);

/// Why `ethers_core` could not read a declaration.
#[verifier::external_type_specification]
#[verifier::external_body]
pub struct ExParseError(ethers_core::abi::ParseError);

/// Whether the byte is one of the ten decimal digits in ASCII.
pub open spec fn is_digit(byte: u8) -> bool {
    0x30 <= byte <= 0x39
}

/// Whether the byte stands for itself in a JSON text: an ASCII byte that is
/// no backslash.
pub open spec fn is_plain(byte: u8) -> bool {
    byte < 0x80 && byte != 0x5c
}

/// How many double quotes stand before a place.
pub open spec fn quotes_before(bytes: Seq<u8>, place: int) -> nat
    decreases place,
{
    if place <= 0 {
        0
    } else if bytes[place - 1] == 0x22 {
        quotes_before(bytes, place - 1) + 1
    } else {
        quotes_before(bytes, place - 1)
    }
}

/// Whether a place lies inside a text between double quotes.
pub open spec fn in_text(bytes: Seq<u8>, place: int) -> bool {
    quotes_before(bytes, place) % 2 == 1
}

/// How many closing brackets, round or square, stand before a place and
/// behind the last double quote before it.
pub open spec fn closers_before(bytes: Seq<u8>, place: int) -> nat
    decreases place,
{
    if place <= 0 || bytes[place - 1] == 0x22 {
        0
    } else if bytes[place - 1] == 0x5d || bytes[place - 1] == 0x29 {
        closers_before(bytes, place - 1) + 1
    } else {
        closers_before(bytes, place - 1)
    }
}

/// Whether a `[` at `open` is followed by nothing but digits up to `place`.
pub open spec fn opens_at(bytes: Seq<u8>, open: int, place: int) -> bool {
    &&& 0 <= open < place
    &&& bytes[open] == 0x5b
    &&& forall|k: int| open < k < place ==> is_digit(#[trigger] bytes[k])
}

/// Whether a `[` and then nothing but digits lead up to a place.
pub open spec fn size_opened(bytes: Seq<u8>, place: int) -> bool {
    exists|open: int| #[trigger] opens_at(bytes, open, place)
}

/// Whether the byte at a place is no `]` inside a text that closes what no
/// `[` with digits behind it opened.
pub open spec fn closes_safely(bytes: Seq<u8>, place: int) -> bool {
    bytes[place] == 0x5d && in_text(bytes, place) ==> size_opened(bytes, place)
}

/// The most closing brackets that one text of a document may hold.
pub const MAX_CLOSERS: usize = 64;

/// Whether every text between double quotes in a JSON document is one that
/// the reader of type names can take: each byte stands for itself, each `]`
/// in a text closes a `[` with nothing but digits between, and no text
/// holds more than `MAX_CLOSERS` closing brackets.
pub open spec fn type_texts_safe(bytes: Seq<u8>) -> bool {
    &&& forall|i: int| 0 <= i < bytes.len() ==> is_plain(#[trigger] bytes[i])
    &&& forall|i: int| 0 <= i < bytes.len() ==> #[trigger] closes_safely(bytes, i)
    &&& forall|i: int| 0 <= i <= bytes.len() ==> #[trigger] closers_before(bytes, i) <= MAX_CLOSERS
}

/// What an interface holds: its functions and events as `Contract::functions`
/// and `Contract::events` yield them, and the inputs of its constructor.
pub uninterp spec fn declarations_of(abi: ethers_core::abi::Abi) -> AbiHelperInner;

/// What reading a text as a JSON list of declarations yields: what the
/// interface holds, or `None` where the text is no such list.
pub uninterp spec fn parsed_json_abi(raw: Seq<char>) -> Option<AbiHelperInner>;

/// `serde_json::from_str` for `ethers_core::abi::Abi`: reads a list of
/// declarations from JSON text. The same text always reads as the same
/// interface, or fails.
///
/// The reader hands the text of each `type` to `ethabi`'s `Reader::read`,
/// which slices by counted characters and panics on a `]` that closes no
/// `[`, on a character of more than one byte, and recurses once for each
/// closing bracket. Documents with such a text between double quotes are
/// left out: without a backslash in the document, the texts that the reader
/// sees are those between its double quotes.
#[verifier::external_body]
fn parse_json_abi(raw: &str) -> (r: Result<ethers_core::abi::Abi, serde_json::Error>)
    requires
        type_texts_safe(raw.spec_bytes()),
    ensures
        r is Ok == parsed_json_abi(raw@) is Some,
        r matches Ok(abi) ==> parsed_json_abi(raw@) == Some(declarations_of(abi)),
{
    serde_json::from_str::<ethers_core::abi::Abi>(raw)
}

/// Whether a JSON document holds a text between double quotes that the
/// reader of type names cannot take.
pub fn has_unsafe_text(raw: &str) -> (found: bool)
    ensures
        found == !type_texts_safe(raw.spec_bytes()),
{
    let bytes = raw.as_bytes();
    let mut inside = false;
    let mut opened = false;
    let mut closers: usize = 0;
    let mut i: usize = 0;
    while i < bytes.len()
        invariant
            0 <= i <= bytes.len(),
            bytes@ == raw.spec_bytes(),
            inside == in_text(bytes@, i as int),
            opened == size_opened(bytes@, i as int),
            closers == closers_before(bytes@, i as int),
            closers <= MAX_CLOSERS,
            forall|k: int| 0 <= k < i ==> is_plain(#[trigger] bytes@[k]),
            forall|k: int| 0 <= k < i ==> #[trigger] closes_safely(bytes@, k),
            forall|k: int| 0 <= k <= i ==> #[trigger] closers_before(bytes@, k) <= MAX_CLOSERS,
        decreases bytes.len() - i,
    {
        let byte = bytes[i];
        if byte >= 0x80 || byte == 0x5c {
            assert(!is_plain(bytes@[i as int]));
            return true;
        }
        if byte == 0x5d && inside && !opened {
            assert(!closes_safely(bytes@, i as int));
            return true;
        }
        let ghost was_opened = opened;
        if byte == 0x22 {
            inside = !inside;
            closers = 0;
        } else if byte == 0x5d || byte == 0x29 {
            if closers == MAX_CLOSERS {
                assert(closers_before(bytes@, i + 1) > MAX_CLOSERS);
                return true;
            }
            closers = closers + 1;
        }
        opened = byte == 0x5b || (opened && 0x30 <= byte && byte <= 0x39);
        proof {
            if byte == 0x5b {
                assert(opens_at(bytes@, i as int, i + 1));
            } else if was_opened && is_digit(byte) {
                let open = choose|open: int| #[trigger] opens_at(bytes@, open, i as int);
                assert(opens_at(bytes@, open, i + 1));
            } else {
                assert forall|open: int| !(#[trigger] opens_at(bytes@, open, i + 1)) by {
                    if opens_at(bytes@, open, i + 1) {
                        if open < i {
                            assert(is_digit(bytes@[i as int]));
                            assert(opens_at(bytes@, open, i as int));
                        }
                    }
                }
            }
        }
        i = i + 1;
    }
    false
}

/// Whether `count` digits stand in a row from `start` on.
pub open spec fn digits_at(bytes: Seq<u8>, start: int, count: int) -> bool {
    &&& 0 <= start
    &&& start + count <= bytes.len()
    &&& forall|k: int| start <= k < start + count ==> is_digit(#[trigger] bytes[k])
}

/// The longest row of digits that the size of an array may have: a number
/// of so many digits fits every `usize`.
pub const MAX_DIGITS: usize = 9;

/// Whether the byte may be, or may belong to, a character of blank space: an
/// ASCII blank, or a byte beyond ASCII.
pub open spec fn may_be_blank(byte: u8) -> bool {
    byte == 0x20 || 0x09 <= byte <= 0x0d || byte >= 0x80
}

/// Whether a `[` at `open` is followed by nothing but blank space up to
/// `place`.
pub open spec fn bracket_leads(bytes: Seq<u8>, open: int, place: int) -> bool {
    &&& 0 <= open < place
    &&& bytes[open] == 0x5b
    &&& forall|k: int| open < k < place ==> may_be_blank(#[trigger] bytes[k])
}

/// Whether the size of an array may start at a place: a `[` stands before
/// it, with nothing but blank space between.
pub open spec fn size_starts(bytes: Seq<u8>, place: int) -> bool {
    exists|open: int| #[trigger] bracket_leads(bytes, open, place)
}

/// Whether a size of more than `MAX_DIGITS` digits starts at a place.
pub open spec fn long_size_at(bytes: Seq<u8>, place: int) -> bool {
    size_starts(bytes, place) && digits_at(bytes, place, MAX_DIGITS + 1)
}

/// Whether the bytes hold the size of an array with more than `MAX_DIGITS`
/// digits.
pub open spec fn has_long_size(bytes: Seq<u8>) -> bool {
    exists|place: int| #[trigger] long_size_at(bytes, place)
}

/// Whether no line holds the size of an array that is too long to fit.
pub open spec fn sizes_fit(lines: Seq<&str>) -> bool {
    forall|i: int| 0 <= i < lines.len() ==> !has_long_size((#[trigger] lines[i]).spec_bytes())
}

/// The most opening brackets, round or square, that one line may hold.
pub const MAX_BRACKETS: usize = 128;

/// How many opening brackets, round or square, stand before a place.
pub open spec fn openers_before(bytes: Seq<u8>, place: int) -> nat
    decreases place,
{
    if place <= 0 {
        0
    } else if bytes[place - 1] == 0x28 || bytes[place - 1] == 0x5b {
        openers_before(bytes, place - 1) + 1
    } else {
        openers_before(bytes, place - 1)
    }
}

/// How many opening brackets, round or square, the bytes hold.
pub open spec fn openers_in(bytes: Seq<u8>) -> nat {
    openers_before(bytes, bytes.len() as int)
}

/// Whether no line holds more than `MAX_BRACKETS` opening brackets.
pub open spec fn brackets_few(lines: Seq<&str>) -> bool {
    forall|i: int|
        0 <= i < lines.len() ==> openers_in((#[trigger] lines[i]).spec_bytes()) <= MAX_BRACKETS
}

/// Whether the reader of declarations can take the lines: no array has a
/// size that is too long to fit, and no line holds too many brackets.
pub open spec fn lines_safe(lines: Seq<&str>) -> bool {
    sizes_fit(lines) && brackets_few(lines)
}

/// The texts of the lines.
pub open spec fn line_texts(lines: Seq<&str>) -> Seq<Seq<char>> {
    lines.map_values(|line: &str| line@)
}

/// What reading lines as declarations in Solidity's notation yields: what
/// the interface holds, or `None` where a line is no declaration.
pub uninterp spec fn parsed_human_abi(lines: Seq<Seq<char>>) -> Option<AbiHelperInner>;

/// `ethers_core::abi::parse_abi`: reads declarations written as Solidity
/// does, one to a line. The same lines always read as the same interface,
/// or fail. The parser reads the size of a fixed array, the digits behind
/// a `[` and blank space, with `parse().unwrap()`, which panics on a number
/// that fits no `usize`: lines with such a size are left out. It also calls
/// itself once for each `(` and each `[`: lines with more than
/// `MAX_BRACKETS` of them are left out, so that it cannot run out of stack.
#[verifier::external_body]
fn parse_human_readable_abi(lines: &Vec<&str>) -> (r: Result<
    ethers_core::abi::Abi,
    ethers_core::abi::ParseError,
>)
    requires
        lines_safe(lines@),
    ensures
        r is Ok == parsed_human_abi(line_texts(lines@)) is Some,
        r matches Ok(abi) ==> parsed_human_abi(line_texts(lines@)) == Some(declarations_of(abi)),
{
    ethers_core::abi::parse_abi(lines)
}

/// `Contract::functions`, each function copied out with its name, the type
/// of each input and output as `ParamType` prints it, which is the
/// canonical one, and its mutability.
#[verifier::external_body]
fn abi_functions(abi: &ethers_core::abi::Abi) -> (functions: Vec<FunctionDeclaration>)
    ensures
        functions == declarations_of(*abi).functions,
{
    abi.functions().map(|f| FunctionDeclaration {
        name: f.name.clone(),
        inputs: f.inputs.iter().map(|p| p.kind.to_string()).collect(),
        outputs: f.outputs.iter().map(|p| p.kind.to_string()).collect(),
        canonical_inputs: f.inputs.iter().map(|p| p.kind.to_string()).collect(),
        state_mutability: match f.state_mutability {
            ethers_core::abi::StateMutability::Pure => StateMutability::Pure,
            ethers_core::abi::StateMutability::View => StateMutability::View,
            ethers_core::abi::StateMutability::NonPayable => StateMutability::NonPayable,
            ethers_core::abi::StateMutability::Payable => StateMutability::Payable,
        },
    }).collect()
}

/// `Contract::constructor`: the type of each of its inputs as `ParamType`
/// prints it; `None` where no constructor is declared.
#[verifier::external_body]
fn abi_constructor(abi: &ethers_core::abi::Abi) -> (types: Option<Vec<String>>)
    ensures
        types == declarations_of(*abi).constructor,
{
    let constructor = abi.constructor()?;
    Some(constructor.inputs.iter().map(|p| p.kind.to_string()).collect())
}

/// `Contract::events`, each event copied out with its name and the type of
/// each input as `ParamType` prints it.
#[verifier::external_body]
fn abi_events(abi: &ethers_core::abi::Abi) -> (events: Vec<EventDeclaration>)
    ensures
        events == declarations_of(*abi).events,
{
    abi.events().map(|e| EventDeclaration {
        name: e.name.clone(),
        inputs: e.inputs.iter().map(|p| p.kind.to_string()).collect(),
    }).collect()
}

/// Before the place where a size may start stands a `[` or blank space, and
/// so no digit.
pub proof fn lemma_size_starts_behind_no_digit(bytes: Seq<u8>, place: int)
    requires
        size_starts(bytes, place),
    ensures
        place >= 1,
        !is_digit(bytes[place - 1]),
{
    let open = choose|open: int| #[trigger] bracket_leads(bytes, open, place);
    if open < place - 1 {
        assert(may_be_blank(bytes[place - 1]));
    }
}

/// Whether the text holds the size of an array with more than `MAX_DIGITS`
/// digits.
pub fn has_long_number(text: &str) -> (found: bool)
    ensures
        found == has_long_size(text.spec_bytes()),
{
    let bytes = text.as_bytes();
    let mut armed = false;
    let mut sized = false;
    let mut run: usize = 0;
    let mut i: usize = 0;
    while i < bytes.len()
        invariant
            0 <= i <= bytes.len(),
            bytes@ == text.spec_bytes(),
            armed == size_starts(bytes@, i as int),
            run <= MAX_DIGITS + 1,
            run <= i,
            forall|k: int| i - run <= k < i ==> is_digit(#[trigger] bytes@[k]),
            run <= MAX_DIGITS && run < i ==> !is_digit(bytes@[i - run - 1]),
            0 < run <= MAX_DIGITS ==> sized == size_starts(bytes@, i - run),
            forall|place: int|
                place + MAX_DIGITS + 1 <= i ==> !(#[trigger] long_size_at(bytes@, place)),
        decreases bytes.len() - i,
    {
        let byte = bytes[i];
        let ghost before = run;
        let ghost was_armed = armed;
        if 0x30 <= byte && byte <= 0x39 {
            if run == 0 {
                sized = armed;
                run = 1;
            } else if run == MAX_DIGITS {
                if sized {
                    assert(long_size_at(bytes@, i - MAX_DIGITS));
                    return true;
                }
                run = MAX_DIGITS + 1;
            } else if run < MAX_DIGITS {
                run = run + 1;
            }
            armed = false;
        } else {
            run = 0;
            armed = byte == 0x5b || (armed && (byte == 0x20 || (0x09 <= byte && byte <= 0x0d) || byte
                >= 0x80));
        }
        proof {
            if byte == 0x5b {
                assert(bracket_leads(bytes@, i as int, i + 1));
            } else if was_armed && may_be_blank(byte) {
                let open = choose|open: int| #[trigger] bracket_leads(bytes@, open, i as int);
                assert(bracket_leads(bytes@, open, i + 1));
            } else {
                assert forall|open: int| !(#[trigger] bracket_leads(bytes@, open, i + 1)) by {
                    if bracket_leads(bytes@, open, i + 1) {
                        if open < i {
                            assert(may_be_blank(bytes@[i as int]));
                            assert(bracket_leads(bytes@, open, i as int));
                        }
                    }
                }
            }
            assert forall|place: int| place + MAX_DIGITS + 1 <= i + 1 implies !(#[trigger] long_size_at(
                bytes@,
                place,
            )) by {
                if place + MAX_DIGITS + 1 == i + 1 && long_size_at(bytes@, place) {
                    lemma_size_starts_behind_no_digit(bytes@, place);
                    assert(is_digit(bytes@[i as int]));
                    if before == MAX_DIGITS + 1 {
                        assert(is_digit(bytes@[place - 1]));
                    } else if before < MAX_DIGITS {
                        if before < i {
                            assert(is_digit(bytes@[i - before - 1]));
                        }
                    }
                }
            }
        }
        i = i + 1;
    }
    assert(!has_long_size(bytes@)) by {
        if has_long_size(bytes@) {
            let place = choose|place: int| #[trigger] long_size_at(bytes@, place);
            assert(place + MAX_DIGITS + 1 <= i);
        }
    }
    false
}

/// Whether some line holds the size of an array that is too long to fit.
pub fn any_long_number(lines: &Vec<&str>) -> (found: bool)
    ensures
        found == !sizes_fit(lines@),
{
    let mut i: usize = 0;
    while i < lines.len()
        invariant
            0 <= i <= lines.len(),
            forall|j: int| 0 <= j < i ==> !has_long_size((#[trigger] lines@[j]).spec_bytes()),
        decreases lines.len() - i,
    {
        if has_long_number(lines[i]) {
            return true;
        }
        i = i + 1;
    }
    false
}

/// The count of opening brackets grows with the place.
pub proof fn lemma_openers_grow(bytes: Seq<u8>, early: int, late: int)
    requires
        early <= late,
    ensures
        openers_before(bytes, early) <= openers_before(bytes, late),
    decreases late - early,
{
    if early < late {
        lemma_openers_grow(bytes, early, late - 1);
    }
}

/// Whether the text holds more than `MAX_BRACKETS` opening brackets.
pub fn has_many_brackets(text: &str) -> (found: bool)
    ensures
        found == (openers_in(text.spec_bytes()) > MAX_BRACKETS),
{
    let bytes = text.as_bytes();
    let mut count: usize = 0;
    let mut i: usize = 0;
    while i < bytes.len()
        invariant
            0 <= i <= bytes.len(),
            bytes@ == text.spec_bytes(),
            count == openers_before(bytes@, i as int),
            count <= MAX_BRACKETS,
        decreases bytes.len() - i,
    {
        let byte = bytes[i];
        if byte == 0x28 || byte == 0x5b {
            if count == MAX_BRACKETS {
                proof {
                    lemma_openers_grow(bytes@, i + 1, bytes@.len() as int);
                }
                return true;
            }
            count = count + 1;
        }
        i = i + 1;
    }
    false
}

/// Whether the reader of declarations cannot take some line.
pub fn any_unsafe_line(lines: &Vec<&str>) -> (found: bool)
    ensures
        found == !lines_safe(lines@),
{
    if any_long_number(lines) {
        return true;
    }
    let mut i: usize = 0;
    while i < lines.len()
        invariant
            0 <= i <= lines.len(),
            forall|j: int|
                0 <= j < i ==> openers_in((#[trigger] lines@[j]).spec_bytes()) <= MAX_BRACKETS,
        decreases lines.len() - i,
    {
        if has_many_brackets(lines[i]) {
            return true;
        }
        i = i + 1;
    }
    false
}

/// The declarations of one interface, ready to be looked up by name.
#[derive(Clone, Debug, PartialEq, Eq)]
pub struct AbiHelperInner {
    /// The declared functions. Overloads of one name stand in the declared
    /// order.
    pub functions: Vec<FunctionDeclaration>,
    /// The input types of the constructor; `None` where none is declared.
    pub constructor: Option<Vec<String>>,
    /// The declared events.
    pub events: Vec<EventDeclaration>,
}

impl AbiHelperInner {
    /// Whether `i` is the place of the first function of that name.
    pub open spec fn first_function(&self, name: Seq<char>, i: int) -> bool {
        &&& 0 <= i < self.functions@.len()
        &&& self.functions@[i].name@ == name
        &&& forall|j: int| 0 <= j < i ==> (#[trigger] self.functions@[j]).name@ != name
    }

    /// Whether the interface declares a function of that name.
    pub open spec fn declares_function(&self, name: Seq<char>) -> bool {
        exists|i: int| 0 <= i < self.functions@.len() && (#[trigger] self.functions@[i]).name@ == name
    }

    /// Whether `i` is the place of the first event of that name.
    pub open spec fn first_event(&self, name: Seq<char>, i: int) -> bool {
        &&& 0 <= i < self.events@.len()
        &&& self.events@[i].name@ == name
        &&& forall|j: int| 0 <= j < i ==> (#[trigger] self.events@[j]).name@ != name
    }

    /// Whether the interface declares an event of that name.
    pub open spec fn declares_event(&self, name: Seq<char>) -> bool {
        exists|i: int| 0 <= i < self.events@.len() && (#[trigger] self.events@[i]).name@ == name
    }

    /// What reading a text yields: the declarations that were read, or
    /// `MalformedInterface` where there are none.
    pub open spec fn read(parsed: Option<AbiHelperInner>) -> Result<AbiHelperInner, EvmError> {
        match parsed {
            Some(inner) => Ok(inner),
            None => Err(EvmError::MalformedInterface),
        }
    }

    fn from_abi(abi: &ethers_core::abi::Abi) -> (inner: AbiHelperInner)
        ensures
            inner == declarations_of(*abi),
    {
        AbiHelperInner {
            functions: abi_functions(abi),
            constructor: abi_constructor(abi),
            events: abi_events(abi),
        }
    }

    /// Reads the declarations from a JSON list. A text that is no such list
    /// is rejected as malformed, and so is a document with a backslash, with
    /// a byte beyond ASCII, or with a text between double quotes that the
    /// reader of type names cannot take.
    pub fn from_json(abi: &str) -> (r: Result<AbiHelperInner, EvmError>)
        ensures
            type_texts_safe(abi.spec_bytes()) ==> r == Self::read(parsed_json_abi(abi@)),
            !type_texts_safe(abi.spec_bytes()) ==> r matches Err(EvmError::MalformedInterface),
            r matches Err(e) ==> e is MalformedInterface,
    {
        if has_unsafe_text(abi) {
            return Err(EvmError::MalformedInterface);
        }
        match parse_json_abi(abi) {
            Ok(abi) => Ok(AbiHelperInner::from_abi(&abi)),
            Err(_) => Err(EvmError::MalformedInterface),
        }
    }

    /// Reads the declarations from lines written as Solidity writes them,
    /// such as `function transfer(address to, uint256 amount) returns (bool)`.
    /// Lines that are no declarations are rejected as malformed, and so are
    /// lines with an array whose size has more than nine digits, or with
    /// more than `MAX_BRACKETS` opening brackets.
    pub fn from_human_readable(abi: Vec<&str>) -> (r: Result<AbiHelperInner, EvmError>)
        ensures
            lines_safe(abi@) ==> r == Self::read(parsed_human_abi(line_texts(abi@))),
            !lines_safe(abi@) ==> r matches Err(EvmError::MalformedInterface),
            r matches Err(e) ==> e is MalformedInterface,
    {
        if any_unsafe_line(&abi) {
            return Err(EvmError::MalformedInterface);
        }
        match parse_human_readable_abi(&abi) {
            Ok(abi) => Ok(AbiHelperInner::from_abi(&abi)),
            Err(_) => Err(EvmError::MalformedInterface),
        }
    }

    /// Get required constructor input if any: `None` where the interface
    /// declares no constructor, the list of its input types where it declares
    /// one, which is empty for a constructor without inputs.
    pub fn constructor_params(&self) -> (r: Option<Vec<String>>)
        ensures
            self.constructor is None ==> r is None,
            self.constructor matches Some(declared) ==> r matches Some(types) && texts(types@)
                == texts(declared@),
    {
        match &self.constructor {
            Some(declared) => Some(clone_types(declared)),
            None => None,
        }
    }

    /// The input and output types of the function of that name, each list in
    /// the declared order. Where several functions share the name, the first
    /// declared answers. Fails with `UnknownFunction` where none has it.
    pub fn function_params(&self, name: &str) -> (r: Result<(Vec<String>, Vec<String>), EvmError>)
        ensures
            r is Ok == self.declares_function(name@),
            r matches Err(e) ==> e is UnknownFunction,
            r matches Ok(types) ==> exists|i: int|
                self.first_function(name@, i) && texts(types.0@) == texts(
                    (#[trigger] self.functions@[i]).inputs@,
                ) && texts(types.1@) == texts(self.functions@[i].outputs@),
    {
        let key = String::from_str(name);
        let mut i: usize = 0;
        while i < self.functions.len()
            invariant
                0 <= i <= self.functions.len(),
                key@ == name@,
                forall|j: int| 0 <= j < i ==> (#[trigger] self.functions@[j]).name@ != name@,
            decreases self.functions.len() - i,
        {
            if self.functions[i].name == key {
                let ins = clone_types(&self.functions[i].inputs);
                let outs = clone_types(&self.functions[i].outputs);
                assert(self.first_function(name@, i as int));
                return Ok((ins, outs));
            }
            i = i + 1;
        }
        Err(EvmError::UnknownFunction)
    }

    /// The input types of the event of that name, in the declared order;
    /// `None` where the interface declares no such event.
    pub fn event_params(&self, name: &str) -> (r: Option<Vec<String>>)
        ensures
            r is Some == self.declares_event(name@),
            r matches Some(types) ==> exists|i: int|
                self.first_event(name@, i) && texts(types@) == texts(
                    (#[trigger] self.events@[i]).inputs@,
                ),
    {
        let key = String::from_str(name);
        let mut i: usize = 0;
        while i < self.events.len()
            invariant
                0 <= i <= self.events.len(),
                key@ == name@,
                forall|j: int| 0 <= j < i ==> (#[trigger] self.events@[j]).name@ != name@,
            decreases self.events.len() - i,
        {
            if self.events[i].name == key {
                let types = clone_types(&self.events[i].inputs);
                assert(self.first_event(name@, i as int));
                return Some(types);
            }
            i = i + 1;
        }
        None
    }
}

/// Utility to parse ABI. Primarily used to extract information needed to
/// encode and decode inputs and outputs.
#[derive(Clone, Debug)]
pub struct ContractParser {
    pub inner: AbiHelperInner,
}

impl ContractParser {
    /// Load an ABI from a JSON list of declarations.
    pub fn load(raw: &str) -> (r: Result<ContractParser, EvmError>)
        ensures
            r is Ok == (type_texts_safe(raw.spec_bytes()) && parsed_json_abi(raw@) is Some),
            r matches Ok(parser) ==> parsed_json_abi(raw@) == Some(parser.inner),
            r matches Err(e) ==> e is MalformedInterface,
    {
        match AbiHelperInner::from_json(raw) {
            Ok(inner) => Ok(ContractParser { inner }),
            Err(e) => Err(e),
        }
    }

    /// Load inline ABI information, one declaration to a line.
    pub fn parse_abi(human: Vec<&str>) -> (r: Result<ContractParser, EvmError>)
        ensures
            r is Ok == (lines_safe(human@) && parsed_human_abi(line_texts(human@)) is Some),
            r matches Ok(parser) ==> parsed_human_abi(line_texts(human@)) == Some(parser.inner),
            r matches Err(e) ==> e is MalformedInterface,
    {
        match AbiHelperInner::from_human_readable(human) {
            Ok(inner) => Ok(ContractParser { inner }),
            Err(e) => Err(e),
        }
    }

    /// Get required constructor input if any.
    pub fn constructor_params(&self) -> (r: Option<Vec<String>>)
        ensures
            self.inner.constructor is None ==> r is None,
            self.inner.constructor matches Some(declared) ==> r matches Some(types) && texts(types@)
                == texts(declared@),
    {
        self.inner.constructor_params()
    }

    /// The input and output types of the function of that name: what a
    /// caller needs to encode a call and decode its result.
    pub fn function_params(&self, name: &str) -> (r: Result<(Vec<String>, Vec<String>), EvmError>)
        ensures
            r is Ok == self.inner.declares_function(name@),
            r matches Err(e) ==> e is UnknownFunction,
            r matches Ok(types) ==> exists|i: int|
                self.inner.first_function(name@, i) && texts(types.0@) == texts(
                    (#[trigger] self.inner.functions@[i]).inputs@,
                ) && texts(types.1@) == texts(self.inner.functions@[i].outputs@),
    {
        self.inner.function_params(name)
    }
}

} // verus!
