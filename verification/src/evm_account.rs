//! Parsing of 160-bit EVM addresses from hex strings, and construction of
//! minimal externally-owned-account records for pre-funding.
//!
//! An address string is an optional case-insensitive `0x` prefix followed by
//! exactly 40 hex digits; anything else is rejected as malformed. A built
//! account always has empty storage and empty code.

use vstd::prelude::*;

use crate::GenesisError;

verus! {

/// A 160-bit EVM address.
#[derive(Clone, Debug, PartialEq, Eq)]
pub struct EvmAddress {
    pub bytes: Vec<u8>,
}

impl EvmAddress {
    /// An address holds exactly 20 bytes.
    pub open spec fn wf(self) -> bool {
        self.bytes@.len() == 20
    }
}

/// A minimal externally-owned EVM account record.
#[derive(Clone, Debug, PartialEq, Eq)]
pub struct EvmAccount {
    pub address: EvmAddress,
    pub nonce: u64,
    pub balance: u128,
    pub storage: Vec<(Vec<u8>, Vec<u8>)>,
    pub code: Vec<u8>,
}

impl EvmAccount {
    /// A well-formed account has a 20-byte address; at genesis its storage
    /// and code are empty.
    pub open spec fn wf(self) -> bool {
        &&& self.address.wf()
        &&& self.storage@.len() == 0
        &&& self.code@.len() == 0
    }
}

/// The value of one hex digit, or `None` for any other character.
pub open spec fn hex_val(c: char) -> Option<int> {
    let i = c as int;
    if '0' as int <= i && i <= '9' as int {
        Some(i - '0' as int)
    } else if 'a' as int <= i && i <= 'f' as int {
        Some(i - 'a' as int + 10)
    } else if 'A' as int <= i && i <= 'F' as int {
        Some(i - 'A' as int + 10)
    } else {
        None
    }
}

/// An address string with its optional `0x`/`0X` prefix removed.
pub open spec fn strip_hex_prefix(s: Seq<char>) -> Seq<char> {
    if s.len() >= 2 && s[0] == '0' && (s[1] == 'x' || s[1] == 'X') {
        s.skip(2)
    } else {
        s
    }
}

/// Every character is a hex digit.
pub open spec fn all_hex_digits(s: Seq<char>) -> bool {
    forall|i: int| 0 <= i < s.len() ==> hex_val(s[i]) is Some
}

/// The byte a pair of hex digits denotes.
pub open spec fn hex_byte(hi: char, lo: char) -> u8 {
    (hex_val(hi)->Some_0 * 16 + hex_val(lo)->Some_0) as u8
}

/// The bytes an even-length hex-digit sequence denotes.
pub open spec fn decode_hex(s: Seq<char>) -> Seq<u8> {
    Seq::new((s.len() / 2) as nat, |i: int| hex_byte(s[2 * i], s[2 * i + 1]))
}

/// The 20 bytes an address string denotes: after stripping the optional
/// prefix there must be exactly 40 hex digits.
pub open spec fn parse_address(s: Seq<char>) -> Option<Seq<u8>> {
    let t = strip_hex_prefix(s);
    if t.len() == 40 && all_hex_digits(t) {
        Some(decode_hex(t))
    } else {
        None
    }
}

/// The lowercase hex digit for a value below 16.
pub open spec fn hex_char(v: int) -> char {
    if v == 0 { '0' } else if v == 1 { '1' } else if v == 2 { '2' } else if v == 3 { '3' }
    else if v == 4 { '4' } else if v == 5 { '5' } else if v == 6 { '6' } else if v == 7 { '7' }
    else if v == 8 { '8' } else if v == 9 { '9' } else if v == 10 { 'a' } else if v == 11 { 'b' }
    else if v == 12 { 'c' } else if v == 13 { 'd' } else if v == 14 { 'e' } else { 'f' }
}

/// The lowercase, unprefixed hex encoding of a byte sequence.
pub open spec fn encode_address(b: Seq<u8>) -> Seq<char> {
    Seq::new((b.len() * 2) as nat, |i: int|
        if i % 2 == 0 {
            hex_char(b[i / 2] as int / 16)
        } else {
            hex_char(b[i / 2] as int % 16)
        }
    )
}

fn hex_digit(c: char) -> (r: Option<u8>)
    ensures
        match hex_val(c) {
            Some(v) => r matches Some(x) && x as int == v && v < 16,
            None => r is None,
        },
{
    let u = c as u32;
    if 48 <= u && u <= 57 {
        Some((u - 48) as u8)
    } else if 97 <= u && u <= 102 {
        Some((u - 97 + 10) as u8)
    } else if 65 <= u && u <= 70 {
        Some((u - 65 + 10) as u8)
    } else {
        None
    }
}

fn hex_digit_char(v: u8) -> (c: char)
    requires
        v < 16,
    ensures
        c == hex_char(v as int),
{
    match v {
        0 => '0', 1 => '1', 2 => '2', 3 => '3',
        4 => '4', 5 => '5', 6 => '6', 7 => '7',
        8 => '8', 9 => '9', 10 => 'a', 11 => 'b',
        12 => 'c', 13 => 'd', 14 => 'e', _ => 'f',
    }
}

/// Relies on `String::push`: it appends exactly the one character.
#[verifier::external_body]
fn push_char(s: &mut String, c: char)
    ensures
        final(s)@ == old(s)@.push(c),
{
    s.push(c);
}

/// Parse a hex address string into its 20 bytes. Fails with
/// `MalformedAddress` exactly where the string, after its optional
/// case-insensitive prefix, is not 40 hex digits.
pub fn parse_evm_address(s: &str) -> (r: Result<EvmAddress, GenesisError>)
    ensures
        match parse_address(s@) {
            Some(b) => r matches Ok(a) && a.bytes@ == b && a.wf(),
            None => r == Err::<EvmAddress, GenesisError>(GenesisError::MalformedAddress),
        },
{
    let n = s.unicode_len();
    let start: usize = if n >= 2 && s.get_char(0) == '0'
        && (s.get_char(1) == 'x' || s.get_char(1) == 'X') {
        2
    } else {
        0
    };
    let ghost t = strip_hex_prefix(s@);
    proof {
        assert(t =~= s@.skip(start as int));
    }
    if n - start != 40 {
        return Err(GenesisError::MalformedAddress);
    }
    let mut bytes: Vec<u8> = Vec::new();
    let mut i: usize = 0;
    while i < 20
        invariant
            s@.len() == n,
            start + 40 == n,
            t =~= s@.skip(start as int),
            t.len() == 40,
            i <= 20,
            bytes@.len() == i,
            forall|j: int| 0 <= j < 2 * i ==> hex_val(t[j]) is Some,
            forall|j: int| 0 <= j < i ==> bytes@[j] == hex_byte(t[2 * j], t[2 * j + 1]),
        decreases 20 - i,
    {
        let hi = s.get_char(start + 2 * i);
        let lo = s.get_char(start + 2 * i + 1);
        assert(hi == t[2 * i as int]);
        assert(lo == t[2 * i as int + 1]);
        let hv = match hex_digit(hi) {
            Some(v) => v,
            None => { return Err(GenesisError::MalformedAddress); },
        };
        let lv = match hex_digit(lo) {
            Some(v) => v,
            None => { return Err(GenesisError::MalformedAddress); },
        };
        bytes.push(hv * 16 + lv);
        i = i + 1;
    }
    proof {
        assert(all_hex_digits(t));
        assert(bytes@ =~= decode_hex(t));
    }
    Ok(EvmAddress { bytes })
}

/// Encode a 20-byte address as 40 lowercase hex digits, no prefix.
pub fn encode_evm_address(addr: &EvmAddress) -> (r: String)
    requires
        addr.wf(),
    ensures
        r@ == encode_address(addr.bytes@),
{
    let mut out = String::new();
    let mut i: usize = 0;
    while i < addr.bytes.len()
        invariant
            addr.wf(),
            i <= addr.bytes@.len(),
            out@ =~= encode_address(addr.bytes@).take(2 * i),
        decreases addr.bytes@.len() - i,
    {
        let b = addr.bytes[i];
        push_char(&mut out, hex_digit_char(b / 16));
        push_char(&mut out, hex_digit_char(b % 16));
        assert(out@ =~= encode_address(addr.bytes@).take(2 * (i + 1)));
        i = i + 1;
    }
    proof {
        assert(out@ =~= encode_address(addr.bytes@));
    }
    out
}

/// Build a minimal pre-funded externally-owned account: the given address,
/// balance and nonce, with empty storage and empty code. Fails with
/// `MalformedAddress` exactly where the address string is malformed.
pub fn build_evm_account(address_hex: &str, balance: u128, nonce: u64) -> (r: Result<
    EvmAccount,
    GenesisError,
>)
    ensures
        match parse_address(address_hex@) {
            Some(b) => r matches Ok(a) && a.address.bytes@ == b && a.balance == balance
                && a.nonce == nonce && a.wf(),
            None => r == Err::<EvmAccount, GenesisError>(GenesisError::MalformedAddress),
        },
{
    let address = parse_evm_address(address_hex)?;
    Ok(EvmAccount { address, nonce, balance, storage: Vec::new(), code: Vec::new() })
}

/// Hex digits round-trip through their character.
proof fn lemma_hex_digit_round_trip(v: int)
    requires
        0 <= v < 16,
    ensures
        hex_val(hex_char(v)) == Some(v),
{
}

/// Address round trip: encoding any 20 bytes as lowercase hex and parsing
/// the result returns exactly the same 20 bytes.
pub proof fn lemma_address_round_trip(b: Seq<u8>)
    requires
        b.len() == 20,
    ensures
        parse_address(encode_address(b)) == Some(b),
{
    let e = encode_address(b);
    assert(e.len() == 40);
    assert(e[1] == hex_char(b[0] as int % 16));
    assert(e[1] != 'x' && e[1] != 'X');
    assert(strip_hex_prefix(e) =~= e);
    assert forall|i: int| 0 <= i < e.len() implies hex_val(e[i]) is Some by {
        if i % 2 == 0 {
            lemma_hex_digit_round_trip(b[i / 2] as int / 16);
        } else {
            lemma_hex_digit_round_trip(b[i / 2] as int % 16);
        }
    }
    assert(all_hex_digits(e));
    let d = decode_hex(e);
    assert forall|i: int| 0 <= i < 20 implies d[i] == b[i] by {
        assert(e[2 * i] == hex_char(b[i] as int / 16));
        assert(e[2 * i + 1] == hex_char(b[i] as int % 16));
        lemma_hex_digit_round_trip(b[i] as int / 16);
        lemma_hex_digit_round_trip(b[i] as int % 16);
        assert(hex_byte(e[2 * i], e[2 * i + 1]) as int == (b[i] as int / 16) * 16 + b[i] as int
            % 16);
        assert((b[i] as int / 16) * 16 + b[i] as int % 16 == b[i] as int) by {
            vstd::arithmetic::div_mod::lemma_fundamental_div_mod(b[i] as int, 16);
        }
    }
    assert(d =~= b);
}

} // verus!
