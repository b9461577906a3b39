//! Addresses and 256-bit words, held as plain bytes and limbs.

use vstd::prelude::*;

verus! {

/// Two to the power 64: the weight of one limb of a [`U256`].
pub open spec fn limb_base() -> nat {
    0x1_0000_0000_0000_0000
}

/// The number that four limbs stand for, least significant limb first.
pub open spec fn limbs_value(limbs: Seq<u64>) -> nat
    recommends
        limbs.len() == 4,
{
    (limbs[0] as nat) + limb_base() * ((limbs[1] as nat) + limb_base() * ((limbs[2] as nat)
        + limb_base() * (limbs[3] as nat)))
}

/// An unsigned 256-bit integer, stored as four 64-bit limbs with the least
/// significant limb first.
#[derive(Clone, Copy, Debug, PartialEq, Eq, Hash)]
pub struct U256 {
    pub limbs: [u64; 4],
}

impl View for U256 {
    type V = nat;

    open spec fn view(&self) -> nat {
        limbs_value(self.limbs@)
    }
}

impl U256 {
    /// The number zero.
    pub fn zero() -> (r: U256)
        ensures
            r@ == 0,
            r.limbs@ == seq![0u64, 0u64, 0u64, 0u64],
    {
        U256 { limbs: [0, 0, 0, 0] }
    }

    /// The 256-bit word with the value of `x`.
    pub fn from_u64(x: u64) -> (r: U256)
        ensures
            r@ == x as nat,
            r.limbs@ == seq![x, 0u64, 0u64, 0u64],
    {
        U256 { limbs: [x, 0, 0, 0] }
    }

    /// The 256-bit word with the given limbs, least significant first.
    pub fn from_limbs(limbs: [u64; 4]) -> (r: U256)
        ensures
            r.limbs == limbs,
            r@ == limbs_value(limbs@),
    {
        U256 { limbs }
    }

    /// Whether this word is zero.
    pub fn is_zero(&self) -> (r: bool)
        ensures
            r == (self@ == 0),
    {
        proof {
            lemma_limbs_value_zero(self.limbs@);
        }
        self.limbs[0] == 0 && self.limbs[1] == 0 && self.limbs[2] == 0 && self.limbs[3] == 0
    }
}

/// Four limbs stand for zero exactly when each of them is zero.
pub proof fn lemma_limbs_value_zero(limbs: Seq<u64>)
    requires
        limbs.len() == 4,
    ensures
        limbs_value(limbs) == 0 <==> (limbs[0] == 0 && limbs[1] == 0 && limbs[2] == 0 && limbs[3]
            == 0),
{
    let b = limb_base();
    let hi = (limbs[1] as nat) + b * ((limbs[2] as nat) + b * (limbs[3] as nat));
    let mid = (limbs[2] as nat) + b * (limbs[3] as nat);
    assert(b > 0);
    assert(limbs[3] != 0 ==> b * (limbs[3] as nat) > 0) by (nonlinear_arith)
        requires
            b > 0,
    ;
    assert(mid != 0 ==> b * mid > 0) by (nonlinear_arith)
        requires
            b > 0,
    ;
    assert(hi != 0 ==> b * hi > 0) by (nonlinear_arith)
        requires
            b > 0,
    ;
    assert(limbs[3] == 0 ==> b * (limbs[3] as nat) == 0) by (nonlinear_arith);
    assert(mid == 0 ==> b * mid == 0) by (nonlinear_arith);
    assert(hi == 0 ==> b * hi == 0) by (nonlinear_arith);
}

/// A 160-bit account address, most significant byte first.
#[derive(Clone, Copy, Debug, PartialEq, Eq, Hash)]
pub struct Address {
    pub bytes: [u8; 20],
}

impl View for Address {
    type V = Seq<u8>;

    open spec fn view(&self) -> Seq<u8> {
        self.bytes@
    }
}

/// The eight bytes of `x`, most significant first.
pub open spec fn be_bytes_of_u64(x: u64) -> Seq<u8> {
    seq![
        (x >> 56) as u8,
        (x >> 48) as u8,
        (x >> 40) as u8,
        (x >> 32) as u8,
        (x >> 24) as u8,
        (x >> 16) as u8,
        (x >> 8) as u8,
        x as u8,
    ]
}

/// The value of a hexadecimal digit, in either case.
pub open spec fn hex_value(c: char) -> Option<u8> {
    let code = c as u32;
    if 0x30 <= code <= 0x39 {
        Some((code - 0x30) as u8)
    } else if 0x61 <= code <= 0x66 {
        Some((code - 0x61 + 10) as u8)
    } else if 0x41 <= code <= 0x46 {
        Some((code - 0x41 + 10) as u8)
    } else {
        None
    }
}

/// The text without the `0x` or `0X` that it may start with.
pub open spec fn hex_body(text: Seq<char>) -> Seq<char> {
    if text.len() >= 2 && text[0] == '0' && (text[1] == 'x' || text[1] == 'X') {
        text.skip(2)
    } else {
        text
    }
}

/// The byte that the two digits at a place of the text spell.
pub open spec fn hex_byte(body: Seq<char>, place: int) -> u8 {
    (hex_value(body[2 * place]).unwrap() * 16 + hex_value(body[2 * place + 1]).unwrap()) as u8
}

/// The address that a text spells in hexadecimal, if it spells one: forty
/// digits, two for each byte from the most significant on, after an optional
/// `0x`.
pub open spec fn address_of_text(text: Seq<char>) -> Option<Seq<u8>> {
    let body = hex_body(text);
    if body.len() == 40 && forall|i: int| 0 <= i < 40 ==> hex_value(#[trigger] body[i]) is Some {
        Some(Seq::new(20, |place: int| hex_byte(body, place)))
    } else {
        None
    }
}

/// The lower-case hexadecimal digit for a value below sixteen.
pub open spec fn hex_digit(value: u8) -> char {
    if value < 10 {
        (0x30 + value) as char
    } else {
        (0x61 + value - 10) as char
    }
}

/// The bytes in lower-case hexadecimal, two digits for each.
pub open spec fn hex_of_bytes(bytes: Seq<u8>) -> Seq<char> {
    Seq::new(
        2 * bytes.len(),
        |i: int|
            if i % 2 == 0 {
                hex_digit(bytes[i / 2] / 16)
            } else {
                hex_digit(bytes[i / 2] % 16)
            },
    )
}

/// The text that spells an address: `0x` and forty lower-case hexadecimal
/// digits.
pub open spec fn text_of_address(address: Seq<u8>) -> Seq<char> {
    seq!['0', 'x'] + hex_of_bytes(address)
}

/// The text that spells an address also reads as that address.
pub proof fn lemma_address_text_round_trip(address: Seq<u8>)
    requires
        address.len() == 20,
    ensures
        address_of_text(text_of_address(address)) == Some(address),
{
    let text = text_of_address(address);
    let digits = hex_of_bytes(address);
    assert(hex_body(text) =~= digits);
    assert forall|i: int| 0 <= i < 40 implies hex_value(#[trigger] digits[i]) is Some by {
        lemma_hex_digit_value((address[i / 2] / 16) as u8);
        lemma_hex_digit_value((address[i / 2] % 16) as u8);
    }
    assert forall|place: int| 0 <= place < 20 implies hex_byte(digits, place) == address[place] by {
        let byte = address[place];
        lemma_hex_digit_value((byte / 16) as u8);
        lemma_hex_digit_value((byte % 16) as u8);
        assert(digits[2 * place] == hex_digit(byte / 16));
        assert(digits[2 * place + 1] == hex_digit(byte % 16));
    }
    assert(Seq::new(20, |place: int| hex_byte(digits, place)) =~= address);
}

/// A digit has the value that it was written for.
pub proof fn lemma_hex_digit_value(value: u8)
    requires
        value < 16,
    ensures
        hex_value(hex_digit(value)) == Some(value),
{
}

/// `FromStr` of `revm`'s `Address`, which decodes with
/// `const_hex::decode_to_array`: the address that the text spells, or `None`
/// where what follows an optional `0x` or `0X` is not forty hexadecimal
/// digits.
#[verifier::external_body]
fn parse_revm_address(text: &str) -> (address: Option<Address>)
    ensures
        address is Some == address_of_text(text@) is Some,
        address matches Some(a) ==> address_of_text(text@) == Some(a@),
{
    text.parse::<revm::primitives::Address>().ok().map(|parsed| Address { bytes: parsed.into_array() })
}

/// `LowerHex` of `revm`'s `Address`, in its alternate form: the address in
/// lower-case hexadecimal behind `0x`.
#[verifier::external_body]
fn print_revm_address(address: &Address) -> (text: String)
    ensures
        text@ == text_of_address(address@),
{
    format!("{:#x}", revm::primitives::Address::new(address.bytes))
}

impl Address {
    /// Reads an address from hexadecimal text, with or without `0x` in front.
    pub fn parse(text: &str) -> (address: Option<Address>)
        ensures
            address is Some == address_of_text(text@) is Some,
            address matches Some(a) ==> address_of_text(text@) == Some(a@),
    {
        parse_revm_address(text)
    }

    /// Writes the address as `0x` and forty hexadecimal digits.
    pub fn to_hex(&self) -> (text: String)
        ensures
            text@ == text_of_address(self@),
    {
        print_revm_address(self)
    }

    /// The address whose bytes are all zero.
    pub fn zero() -> (r: Address)
        ensures
            r@ == Seq::new(20, |i: int| 0u8),
    {
        let r = Address { bytes: [0u8; 20] };
        assert(r@ =~= Seq::new(20, |i: int| 0u8));
        r
    }

    /// The address whose last eight bytes spell `x`, most significant byte
    /// first, and whose first twelve bytes are zero.
    pub fn from_low_u64_be(x: u64) -> (r: Address)
        ensures
            r@ == Seq::new(12, |i: int| 0u8) + be_bytes_of_u64(x),
    {
        let r = Address {
            bytes: [
                0,
                0,
                0,
                0,
                0,
                0,
                0,
                0,
                0,
                0,
                0,
                0,
                (x >> 56) as u8,
                (x >> 48) as u8,
                (x >> 40) as u8,
                (x >> 32) as u8,
                (x >> 24) as u8,
                (x >> 16) as u8,
                (x >> 8) as u8,
                x as u8,
            ],
        };
        assert(r@ =~= Seq::new(12, |i: int| 0u8) + be_bytes_of_u64(x));
        r
    }
}

} // verus!
