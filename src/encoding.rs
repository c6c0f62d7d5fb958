use crate::symbols::{qualified_name, standardized_symbol_name};
use crate::value::{digits_value, BigInteger, WolframError, WolframValue};
use vstd::prelude::*;
use vstd::string::*;
use vstd::utf8::encode_utf8;

verus! {

/// The tag of a string value: `S`.
pub const TAG_STRING: u8 = 83;
/// The tag of a symbol: `s`.
pub const TAG_SYMBOL: u8 = 115;
/// The tag of an 8-bit integer: `C`.
pub const TAG_INTEGER8: u8 = 67;
/// The tag of a 16-bit integer: `j`.
pub const TAG_INTEGER16: u8 = 106;
/// The tag of a 32-bit integer: `i`.
pub const TAG_INTEGER32: u8 = 105;
/// The tag of a 64-bit integer: `L`.
pub const TAG_INTEGER64: u8 = 76;
/// The tag of an arbitrary-precision integer: `I`.
pub const TAG_BIG_INTEGER: u8 = 73;
/// The first header byte: the format version `8`.
pub const HEADER_VERSION: u8 = 56;
/// The second header byte: `:`, no compression.
pub const HEADER_UNCOMPRESSED: u8 = 58;

/// The length prefix of a payload of `n` bytes; only single-byte lengths
/// are supported.
pub open spec fn varint_length(n: nat) -> Option<Seq<u8>> {
    if n <= 127 {
        Some(seq![n as u8])
    } else {
        None
    }
}

pub open spec fn pow256(w: nat) -> nat
    decreases w,
{
    if w == 0 {
        1
    } else {
        256 * pow256((w - 1) as nat)
    }
}

/// The `w` low bytes of `u`, least significant first.
pub open spec fn le_bytes(u: nat, w: nat) -> Seq<u8>
    decreases w,
{
    if w == 0 {
        seq![]
    } else {
        seq![(u % 256) as u8] + le_bytes(u / 256, (w - 1) as nat)
    }
}

/// The two's complement pattern of `v` on `w` bytes, as a natural number.
pub open spec fn twos_complement(v: int, w: nat) -> nat {
    if v < 0 {
        (v + pow256(w)) as nat
    } else {
        v as nat
    }
}

/// The sizes of the fixed-width integer types.
pub proof fn lemma_pow256_widths()
    ensures
        pow256(1) == 0x100,
        pow256(2) == 0x1_0000,
        pow256(4) == 0x1_0000_0000,
        pow256(8) == 0x1_0000_0000_0000_0000,
{
    reveal_with_fuel(pow256, 9);
}

/// The little-endian two's complement payload of `v` on `w` bytes.
pub open spec fn int_payload(v: int, w: nat) -> Seq<u8> {
    le_bytes(twos_complement(v, w), w)
}

pub open spec fn digit_char(d: nat) -> char {
    if d == 0 { '0' }
    else if d == 1 { '1' }
    else if d == 2 { '2' }
    else if d == 3 { '3' }
    else if d == 4 { '4' }
    else if d == 5 { '5' }
    else if d == 6 { '6' }
    else if d == 7 { '7' }
    else if d == 8 { '8' }
    else { '9' }
}

/// The decimal digits of `n`, most significant first, without leading zeros.
pub open spec fn decimal_digits(n: nat) -> Seq<char>
    decreases n,
{
    if n < 10 {
        seq![digit_char(n)]
    } else {
        decimal_digits(n / 10).push(digit_char(n % 10))
    }
}

/// The decimal text of `v`, with a leading `-` when it is negative.
pub open spec fn decimal_text(v: int) -> Seq<char> {
    if v < 0 {
        seq!['-'] + decimal_digits((-v) as nat)
    } else {
        decimal_digits(v as nat)
    }
}

/// The quoted and escaped rendering of a string, as `{:?}` writes it.
pub uninterp spec fn debug_quoted(s: Seq<char>) -> Seq<char>;

/// A tag, the length of the text's UTF-8 bytes, then those bytes.
pub open spec fn text_field(tag: u8, text: Seq<char>) -> Option<Seq<u8>> {
    match varint_length(encode_utf8(text).len()) {
        Some(len) => Some(seq![tag] + len + encode_utf8(text)),
        None => None,
    }
}

/// The tagged encoding of one value, or `None` where it is not supported.
pub open spec fn wxf_body(v: WolframValue) -> Option<Seq<u8>> {
    match v {
        WolframValue::String(s) => text_field(TAG_STRING, s@),
        WolframValue::Symbol(s) => text_field(TAG_SYMBOL, qualified_name(s@)),
        WolframValue::Integer8(n) => Some(seq![TAG_INTEGER8] + int_payload(n as int, 1)),
        WolframValue::Integer16(n) => Some(seq![TAG_INTEGER16] + int_payload(n as int, 2)),
        WolframValue::Integer32(n) => Some(seq![TAG_INTEGER32] + int_payload(n as int, 4)),
        WolframValue::Integer64(n) => Some(seq![TAG_INTEGER64] + int_payload(n as int, 8)),
        WolframValue::BigInteger(b) => text_field(TAG_BIG_INTEGER, decimal_text(b.value())),
        _ => None,
    }
}

/// The header of an uncompressed stream: format 8.
pub open spec fn wxf_header() -> Seq<u8> {
    seq![HEADER_VERSION, HEADER_UNCOMPRESSED]
}

/// A body preceded by the header, where there is a body.
pub open spec fn framed(body: Option<Seq<u8>>) -> Option<Seq<u8>> {
    match body {
        Some(b) => Some(wxf_header() + b),
        None => None,
    }
}

/// The complete uncompressed stream of one value.
pub open spec fn wxf_encoding(v: WolframValue) -> Option<Seq<u8>> {
    framed(wxf_body(v))
}

/// The debug text of a value, or `None` where it is not supported.
pub open spec fn wxf_text(v: WolframValue) -> Option<Seq<char>> {
    match v {
        WolframValue::String(s) => Some(debug_quoted(s@)),
        WolframValue::Symbol(s) => Some(s@),
        WolframValue::Integer8(n) => Some(decimal_text(n as int)),
        WolframValue::Integer16(n) => Some(decimal_text(n as int)),
        WolframValue::Integer32(n) => Some(decimal_text(n as int)),
        WolframValue::Integer64(n) => Some(decimal_text(n as int)),
        WolframValue::BigInteger(b) => Some(decimal_text(b.value())),
        _ => None,
    }
}

/// `r` is the bytes `expected`, or the error for an unsupported input.
pub open spec fn bytes_outcome(r: Result<Vec<u8>, WolframError>, expected: Option<Seq<u8>>) -> bool {
    match expected {
        Some(b) => r is Ok && r->Ok_0@ == b,
        None => r is Err && r->Err_0 == WolframError::NotImplemented,
    }
}

/// Relies on `<i64 as Display>`: the plain decimal text of the integer.
#[verifier::external_body]
fn integer_text(n: i64) -> (r: String)
    ensures
        r@ == decimal_text(n as int),
{
    n.to_string()
}

/// Relies on `<str as Debug>`: the quoted, escaped text of the string.
#[verifier::external_body]
fn debug_text(s: &str) -> (r: String)
    ensures
        r@ == debug_quoted(s@),
{
    format!("{:?}", s)
}

/// Relies on `num_bigint::BigInt::from_slice` and `<BigInt as Display>`:
/// the decimal text of the integer with that sign and those base 2^32 digits.
#[verifier::external_body]
fn big_decimal_text(negative: bool, digits: &Vec<u32>) -> (r: String)
    ensures
        r@ == decimal_text(if negative { -digits_value(digits@) } else { digits_value(digits@) as int }),
{
    let sign = if negative { num_bigint::Sign::Minus } else { num_bigint::Sign::Plus };
    num_bigint::BigInt::from_slice(sign, digits).to_string()
}

/// The length prefix of `input`'s UTF-8 bytes; lengths above 127 are not
/// supported.
pub fn length_encoding(input: &str) -> (r: Result<Vec<u8>, WolframError>)
    ensures
        bytes_outcome(r, varint_length(input.spec_bytes().len())),
{
    let len = input.as_bytes().len();
    if len <= 127 {
        let mut out: Vec<u8> = Vec::new();
        out.push(len as u8);
        assert(out@ =~= seq![len as u8]);
        Ok(out)
    } else {
        Err(WolframError::NotImplemented)
    }
}

/// The `width` low bytes of `u`, least significant first.
fn le_payload(u: u64, width: usize) -> (r: Vec<u8>)
    ensures
        r@ == le_bytes(u as nat, width as nat),
{
    let mut out: Vec<u8> = Vec::new();
    let mut x: u64 = u;
    let mut i: usize = 0;
    while i < width
        invariant
            i <= width,
            out@ + le_bytes(x as nat, (width - i) as nat) == le_bytes(u as nat, width as nat),
        decreases width - i,
    {
        let ghost before = out@;
        out.push((x % 256) as u8);
        proof {
            assert(le_bytes(x as nat, (width - i) as nat) == seq![(x as nat % 256) as u8] + le_bytes(
                x as nat / 256,
                (width - i - 1) as nat,
            ));
            assert(out@ + le_bytes(x as nat / 256, (width - i - 1) as nat) =~= before + le_bytes(
                x as nat,
                (width - i) as nat,
            ));
        }
        x = x / 256;
        i = i + 1;
    }
    out
}

/// A tag followed by `payload`.
fn tagged(tag: u8, payload: Vec<u8>) -> (r: Vec<u8>)
    ensures
        r@ == seq![tag] + payload@,
{
    let mut out: Vec<u8> = Vec::new();
    out.push(tag);
    let mut i: usize = 0;
    while i < payload.len()
        invariant
            i <= payload@.len(),
            out@ == seq![tag] + payload@.subrange(0, i as int),
        decreases payload@.len() - i,
    {
        out.push(payload[i]);
        i = i + 1;
        assert(out@ =~= seq![tag] + payload@.subrange(0, i as int));
    }
    assert(payload@.subrange(0, payload@.len() as int) =~= payload@);
    out
}

/// A tag, the length of `text`'s UTF-8 bytes, then those bytes.
fn text_field_bytes(tag: u8, text: &str) -> (r: Result<Vec<u8>, WolframError>)
    ensures
        bytes_outcome(r, text_field(tag, text@)),
{
    let len = length_encoding(text);
    match len {
        Ok(prefix) => {
            let bytes = text.as_bytes();
            let mut out = tagged(tag, prefix);
            let ghost start = out@;
            let mut i: usize = 0;
            while i < bytes.len()
                invariant
                    i <= bytes@.len(),
                    bytes@ == encode_utf8(text@),
                    out@ == start + bytes@.subrange(0, i as int),
                decreases bytes@.len() - i,
            {
                out.push(bytes[i]);
                i = i + 1;
                assert(out@ =~= start + bytes@.subrange(0, i as int));
            }
            assert(bytes@.subrange(0, bytes@.len() as int) =~= bytes@);
            Ok(out)
        },
        Err(e) => Err(e),
    }
}

impl WolframValue {
    /// The debug text of the value: strings quoted and escaped, symbols as
    /// written, integers of every width in decimal.
    pub fn to_string(&self) -> (r: Result<String, WolframError>)
        ensures
            match wxf_text(*self) {
                Some(t) => r is Ok && r->Ok_0@ == t,
                None => r is Err && r->Err_0 == WolframError::NotImplemented,
            },
    {
        match self {
            WolframValue::String(s) => Ok(debug_text(s.as_str())),
            WolframValue::Symbol(s) => Ok(s.clone()),
            WolframValue::Integer8(n) => Ok(integer_text(*n as i64)),
            WolframValue::Integer16(n) => Ok(integer_text(*n as i64)),
            WolframValue::Integer32(n) => Ok(integer_text(*n as i64)),
            WolframValue::Integer64(n) => Ok(integer_text(*n)),
            WolframValue::BigInteger(b) => Ok(big_decimal_text(b.negative, &b.digits)),
            _ => Err(WolframError::NotImplemented),
        }
    }

    /// The complete uncompressed stream: the header, then the value.
    pub fn to_bytes(&self) -> (r: Result<Vec<u8>, WolframError>)
        ensures
            bytes_outcome(r, wxf_encoding(*self)),
    {
        let inner = self.to_bytes_inner();
        match inner {
            Ok(body) => {
                let mut out: Vec<u8> = Vec::new();
                out.push(HEADER_VERSION);
                out.push(HEADER_UNCOMPRESSED);
                let ghost start = out@;
                let mut i: usize = 0;
                while i < body.len()
                    invariant
                        i <= body@.len(),
                        start == wxf_header(),
                        out@ == start + body@.subrange(0, i as int),
                    decreases body@.len() - i,
                {
                    out.push(body[i]);
                    i = i + 1;
                    assert(out@ =~= start + body@.subrange(0, i as int));
                }
                assert(body@.subrange(0, body@.len() as int) =~= body@);
                Ok(out)
            },
            Err(e) => Err(e),
        }
    }

    /// Compressed output is not supported: it always fails.
    pub fn to_compressed(&self) -> (r: Result<Vec<u8>, WolframError>)
        ensures
            r is Err && r->Err_0 == WolframError::NotImplemented,
    {
        Err(WolframError::NotImplemented)
    }

    fn to_bytes_inner(&self) -> (r: Result<Vec<u8>, WolframError>)
        ensures
            bytes_outcome(r, wxf_body(*self)),
    {
        proof {
            lemma_pow256_widths();
        }
        match self {
            WolframValue::String(s) => text_field_bytes(TAG_STRING, s.as_str()),
            WolframValue::Symbol(s) => {
                let symbol = standardized_symbol_name(s.as_str());
                text_field_bytes(TAG_SYMBOL, symbol.as_str())
            },
            WolframValue::Integer8(n) => {
                let u: u64 = if *n < 0 { (*n as i64 + 0x100) as u64 } else { *n as u64 };
                assert(u as nat == twos_complement(*n as int, 1));
                Ok(tagged(TAG_INTEGER8, le_payload(u, 1)))
            },
            WolframValue::Integer16(n) => {
                let u: u64 = if *n < 0 { (*n as i64 + 0x1_0000) as u64 } else { *n as u64 };
                assert(u as nat == twos_complement(*n as int, 2));
                Ok(tagged(TAG_INTEGER16, le_payload(u, 2)))
            },
            WolframValue::Integer32(n) => {
                let u: u64 = if *n < 0 { (*n as i64 + 0x1_0000_0000) as u64 } else { *n as u64 };
                assert(u as nat == twos_complement(*n as int, 4));
                Ok(tagged(TAG_INTEGER32, le_payload(u, 4)))
            },
            WolframValue::Integer64(n) => {
                let u: u64 = if *n < 0 { (*n as i128 + 0x1_0000_0000_0000_0000) as u64 } else { *n as u64 };
                assert(u as nat == twos_complement(*n as int, 8));
                Ok(tagged(TAG_INTEGER64, le_payload(u, 8)))
            },
            WolframValue::BigInteger(b) => {
                let text = big_decimal_text(b.negative, &b.digits);
                text_field_bytes(TAG_BIG_INTEGER, text.as_str())
            },
            _ => Err(WolframError::NotImplemented),
        }
    }
}

} // verus!
