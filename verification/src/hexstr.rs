//! Hex encoding and decoding of identities and Merkle data, and the
//! character-level validation of inbound request fields.

use vstd::prelude::*;

use vstd::slice::slice_subrange;
use vstd::string::StrSliceExecFns;
use vstd::string::StringExecFns;
use vstd::string::StringSliceAdditionalSpecFns;

use crate::pki::PubKey;

verus! {

/// The ASCII bytes `0`..`9`, `a`..`f`, `A`..`F`.
pub open spec fn is_hex_digit_byte(b: u8) -> bool {
    (48 <= b <= 57) || (97 <= b <= 102) || (65 <= b <= 70)
}

/// The value of a hex-digit byte.
pub open spec fn hex_val(b: u8) -> u8 {
    if 48 <= b <= 57 {
        (b - 48) as u8
    } else if 97 <= b <= 102 {
        (b - 87) as u8
    } else if 65 <= b <= 70 {
        (b - 55) as u8
    } else {
        0
    }
}

/// Whether a byte string is well-formed hex: even length, hex digits only.
pub open spec fn is_hex_bytes(s: Seq<u8>) -> bool {
    s.len() % 2 == 0 && (forall|i: int| 0 <= i < s.len() ==> is_hex_digit_byte(#[trigger] s[i]))
}

/// The bytes a well-formed hex string decodes to: one byte per digit pair.
pub open spec fn hex_decoded(s: Seq<u8>) -> Seq<u8> {
    Seq::new(s.len() / 2, |i: int| (hex_val(s[2 * i]) * 16 + hex_val(s[2 * i + 1])) as u8)
}

/// The lowercase hex digit of a value below 16.
pub open spec fn hex_digit_char(v: u8) -> char {
    if v == 0 {
        '0'
    } else if v == 1 {
        '1'
    } else if v == 2 {
        '2'
    } else if v == 3 {
        '3'
    } else if v == 4 {
        '4'
    } else if v == 5 {
        '5'
    } else if v == 6 {
        '6'
    } else if v == 7 {
        '7'
    } else if v == 8 {
        '8'
    } else if v == 9 {
        '9'
    } else if v == 10 {
        'a'
    } else if v == 11 {
        'b'
    } else if v == 12 {
        'c'
    } else if v == 13 {
        'd'
    } else if v == 14 {
        'e'
    } else if v == 15 {
        'f'
    } else {
        '0'
    }
}

/// The lowercase hex encoding of a byte string: two digits per byte.
pub open spec fn hex_encoded(data: Seq<u8>) -> Seq<char> {
    Seq::new(
        data.len() * 2,
        |i: int|
            if i % 2 == 0 {
                hex_digit_char(data[i / 2] / 16)
            } else {
                hex_digit_char(data[i / 2] % 16)
            },
    )
}

#[verifier::external_type_specification]
#[verifier::external_body]
pub struct ExFromHexError(hex::FromHexError);

/// Relies on hex::decode: succeeds exactly on an even number of hex digits
/// (either case), yielding one byte per digit pair.
#[verifier::external_body]
fn hex_decode_bytes(data: &[u8]) -> (r: Result<Vec<u8>, hex::FromHexError>)
    ensures
        r matches Ok(b) ==> is_hex_bytes(data@) && b@ == hex_decoded(data@),
        r is Err ==> !is_hex_bytes(data@),
{
    hex::decode(data)
}

/// Relies on hex::encode: the lowercase hex string of `data`, two digits
/// per byte.
#[verifier::external_body]
fn hex_encode_bytes(data: &[u8]) -> (r: String)
    ensures
        r@ == hex_encoded(data@),
{
    hex::encode(data)
}

/// The lowercase hex encoding of a byte string.
pub fn encode_hex(data: &[u8]) -> (r: String)
    ensures
        r@ == hex_encoded(data@),
{
    hex_encode_bytes(data)
}

/// Errors of wallet-identity parsing.
#[derive(Debug, Clone, Copy, PartialEq, Eq)]
pub enum WalletParseError {
    InvalidHex,
    TooShort,
}

/// A byte string with its optional `0x` prefix removed.
pub open spec fn strip_0x(b: Seq<u8>) -> Seq<u8> {
    if b.len() >= 2 && b[0] == 48 && b[1] == 120 {
        b.skip(2)
    } else {
        b
    }
}

/// Parses a wallet identity from hex, with or without a `0x` prefix: the
/// hex must be well formed and decode to at least 32 bytes, of which the
/// first 32 become the key.
pub fn decode_pubkey_from_hex(s: &str) -> (r: Result<PubKey, WalletParseError>)
    ensures
        ({
            let core = strip_0x(s.spec_bytes());
            &&& !is_hex_bytes(core) ==> r == Err::<PubKey, WalletParseError>(
                WalletParseError::InvalidHex,
            )
            &&& (is_hex_bytes(core) && hex_decoded(core).len() < 32) ==> r == Err::<
                PubKey,
                WalletParseError,
            >(WalletParseError::TooShort)
            &&& (is_hex_bytes(core) && hex_decoded(core).len() >= 32) ==> (r matches Ok(pk)
                && pk@ == hex_decoded(core).take(32))
        }),
{
    let b = s.as_bytes();
    let core: &[u8] = if b.len() >= 2 && b[0] == 48 && b[1] == 120 {
        slice_subrange(b, 2, b.len())
    } else {
        b
    };
    match hex_decode_bytes(core) {
        Err(_) => Err(WalletParseError::InvalidHex),
        Ok(bytes) => {
            if bytes.len() < 32 {
                return Err(WalletParseError::TooShort);
            }
            let mut pk = [0u8; 32];
            let mut i: usize = 0;
            while i < 32
                invariant
                    i <= 32,
                    bytes@.len() >= 32,
                    forall|j: int| 0 <= j < i ==> pk@[j] == bytes@[j],
                decreases 32 - i,
            {
                pk[i] = bytes[i];
                i += 1;
            }
            proof {
                assert(pk@ =~= bytes@.take(32));
            }
            Ok(PubKey::new(pk))
        },
    }
}

impl PubKey {
    /// The canonical display form of an identity: the address prefix
    /// followed by the lowercase hex of its 32 bytes.
    pub fn display_string(&self) -> (r: String)
        ensures
            r@ == "kaspa:"@ + hex_encoded(self@),
    {
        let h = hex_encode_bytes(self.as_bytes().as_slice());
        let mut out = "kaspa:".to_owned();
        out.append(h.as_str());
        out
    }
}

/// Whether a string is a `0x`-prefixed 64-digit hex hash.
pub open spec fn is_hex64_spec(s: Seq<char>) -> bool {
    s.len() == 66 && s[0] == '0' && s[1] == 'x' && (forall|i: int|
        2 <= i < 66 ==> is_hex_digit_char(#[trigger] s[i]))
}

/// The characters `0`..`9`, `a`..`f`, `A`..`F`.
pub open spec fn is_hex_digit_char(c: char) -> bool {
    (48 <= c as int <= 57) || (97 <= c as int <= 102) || (65 <= c as int <= 70)
}

/// Whether a character is a hex digit.
pub fn char_is_hex_digit(c: char) -> (r: bool)
    ensures
        r == is_hex_digit_char(c),
{
    let u = c as u32;
    (48 <= u && u <= 57) || (97 <= u && u <= 102) || (65 <= u && u <= 70)
}

/// Whether a string is a `0x`-prefixed 64-digit hex hash.
pub fn is_hex64(s: &str) -> (r: bool)
    ensures
        r == is_hex64_spec(s@),
{
    let n = s.unicode_len();
    if n != 66 {
        return false;
    }
    if s.get_char(0) != '0' || s.get_char(1) != 'x' {
        return false;
    }
    let mut i: usize = 2;
    while i < 66
        invariant
            2 <= i <= 66,
            s@.len() == 66,
            s@[0] == '0' && s@[1] == 'x',
            forall|j: int| 2 <= j < i ==> is_hex_digit_char(#[trigger] s@[j]),
        decreases 66 - i,
    {
        if !char_is_hex_digit(s.get_char(i)) {
            return false;
        }
        i += 1;
    }
    true
}

/// Whether every character of a string is `0` or `1`.
pub open spec fn is_bitstring_spec(s: Seq<char>) -> bool {
    forall|i: int| 0 <= i < s.len() ==> s[i] == '0' || s[i] == '1'
}

/// Whether a string is a bitstring.
pub fn is_bitstring(s: &str) -> (r: bool)
    ensures
        r == is_bitstring_spec(s@),
{
    let n = s.unicode_len();
    let mut i: usize = 0;
    while i < n
        invariant
            i <= n,
            n == s@.len(),
            forall|j: int| 0 <= j < i ==> s@[j] == '0' || s@[j] == '1',
        decreases n - i,
    {
        let c = s.get_char(i);
        if c != '0' && c != '1' {
            return false;
        }
        i += 1;
    }
    true
}

} // verus!
