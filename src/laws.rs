use crate::encoding::{
    framed, int_payload, le_bytes, pow256, text_field, twos_complement, wxf_body, wxf_encoding,
    lemma_pow256_widths, HEADER_UNCOMPRESSED, HEADER_VERSION, TAG_INTEGER16, TAG_INTEGER32,
    TAG_INTEGER64, TAG_INTEGER8, TAG_STRING, TAG_SYMBOL,
};
use crate::symbols::{default_context, has_context, is_system_symbol, qualified_name};
use crate::value::WolframValue;
use vstd::arithmetic::div_mod::lemma_mod_breakdown;
use vstd::prelude::*;
use vstd::utf8::encode_utf8;

verus! {

/// The number that little-endian bytes spell.
pub open spec fn le_value(b: Seq<u8>) -> nat
    decreases b.len(),
{
    if b.len() == 0 {
        0
    } else {
        b[0] as nat + 256 * le_value(b.drop_first())
    }
}

/// The signed integer whose two's complement pattern on `w` bytes is `u`.
pub open spec fn from_twos_complement(u: nat, w: nat) -> int {
    if u >= pow256(w) / 2 {
        u - pow256(w)
    } else {
        u as int
    }
}

/// Reads a fixed-width integer back from its tag and payload.
pub open spec fn decode_fixed_integer(b: Seq<u8>) -> Option<WolframValue> {
    if b.len() == 2 && b[0] == TAG_INTEGER8 {
        Some(WolframValue::Integer8(from_twos_complement(le_value(b.drop_first()), 1) as i8))
    } else if b.len() == 3 && b[0] == TAG_INTEGER16 {
        Some(WolframValue::Integer16(from_twos_complement(le_value(b.drop_first()), 2) as i16))
    } else if b.len() == 5 && b[0] == TAG_INTEGER32 {
        Some(WolframValue::Integer32(from_twos_complement(le_value(b.drop_first()), 4) as i32))
    } else if b.len() == 9 && b[0] == TAG_INTEGER64 {
        Some(WolframValue::Integer64(from_twos_complement(le_value(b.drop_first()), 8) as i64))
    } else {
        None
    }
}

proof fn lemma_pow256_positive(w: nat)
    ensures
        pow256(w) > 0,
    decreases w,
{
    if w > 0 {
        lemma_pow256_positive((w - 1) as nat);
    }
}

/// Reading back `w` little-endian bytes gives the number modulo 256^w.
proof fn lemma_le_round_trip(u: nat, w: nat)
    ensures
        le_bytes(u, w).len() == w,
        le_value(le_bytes(u, w)) == u % pow256(w),
    decreases w,
{
    if w > 0 {
        let w1 = (w - 1) as nat;
        lemma_le_round_trip(u / 256, w1);
        lemma_pow256_positive(w1);
        let b = le_bytes(u, w);
        assert(b.drop_first() =~= le_bytes(u / 256, w1));
        lemma_mod_breakdown(u as int, 256, pow256(w1) as int);
    }
}

proof fn lemma_int_round_trip(v: int, w: nat)
    requires
        w > 0,
        -(pow256(w) / 2) <= v < pow256(w) / 2,
        pow256(w) % 2 == 0,
    ensures
        int_payload(v, w).len() == w,
        from_twos_complement(le_value(int_payload(v, w)), w) == v,
{
    let u = twos_complement(v, w);
    lemma_le_round_trip(u, w);
    assert(u < pow256(w));
    vstd::arithmetic::div_mod::lemma_small_mod(u, pow256(w));
}

/// Every fixed-width integer is recovered exactly, with its width, from its
/// tag and little-endian payload.
pub proof fn law_fixed_integer_round_trip(v: WolframValue)
    requires
        v is Integer8 || v is Integer16 || v is Integer32 || v is Integer64,
    ensures
        wxf_body(v) is Some,
        decode_fixed_integer(wxf_body(v)->0) == Some(v),
{
    lemma_pow256_widths();
    let b = wxf_body(v)->0;
    match v {
        WolframValue::Integer8(n) => {
            lemma_int_round_trip(n as int, 1);
            assert(b.drop_first() =~= int_payload(n as int, 1));
        },
        WolframValue::Integer16(n) => {
            lemma_int_round_trip(n as int, 2);
            assert(b.drop_first() =~= int_payload(n as int, 2));
        },
        WolframValue::Integer32(n) => {
            lemma_int_round_trip(n as int, 4);
            assert(b.drop_first() =~= int_payload(n as int, 4));
        },
        WolframValue::Integer64(n) => {
            lemma_int_round_trip(n as int, 8);
            assert(b.drop_first() =~= int_payload(n as int, 8));
        },
        _ => {},
    }
}

/// Two fixed-width integers encode alike only when they are the same
/// variant holding the same number: the width is never changed.
pub proof fn law_fixed_integer_encoding_injective(a: WolframValue, b: WolframValue)
    requires
        a is Integer8 || a is Integer16 || a is Integer32 || a is Integer64,
        b is Integer8 || b is Integer16 || b is Integer32 || b is Integer64,
        wxf_body(a) == wxf_body(b),
    ensures
        a == b,
{
    law_fixed_integer_round_trip(a);
    law_fixed_integer_round_trip(b);
}

/// A string of at most 127 UTF-8 bytes encodes as the header, the tag `S`,
/// its byte length in one byte, then its bytes.
pub proof fn law_short_string_encoding(s: String)
    requires
        encode_utf8(s@).len() <= 127,
    ensures
        wxf_encoding(WolframValue::String(s)) == Some(
            seq![HEADER_VERSION, HEADER_UNCOMPRESSED, TAG_STRING, encode_utf8(s@).len() as u8]
                + encode_utf8(s@),
        ),
{
    let b = encode_utf8(s@);
    assert(wxf_encoding(WolframValue::String(s))->0 =~= seq![
        HEADER_VERSION,
        HEADER_UNCOMPRESSED,
        TAG_STRING,
        b.len() as u8,
    ] + b);
}

/// A bare name that is not built in is encoded in the default context.
pub proof fn law_bare_symbol_in_default_context(name: String)
    requires
        !has_context(name@),
        !is_system_symbol(name@),
    ensures
        qualified_name(name@) == default_context() + name@,
        wxf_encoding(WolframValue::Symbol(name)) == framed(
            text_field(TAG_SYMBOL, default_context() + name@),
        ),
{
}

/// A built-in bare name is encoded as it is, without a context.
pub proof fn law_system_symbol_unqualified(name: String)
    requires
        !has_context(name@),
        is_system_symbol(name@),
    ensures
        qualified_name(name@) == name@,
        wxf_encoding(WolframValue::Symbol(name)) == framed(text_field(TAG_SYMBOL, name@)),
{
}

/// A name that already holds a context is encoded unchanged, whether or not
/// it is built in.
pub proof fn law_qualified_symbol_unchanged(name: String)
    requires
        has_context(name@),
    ensures
        qualified_name(name@) == name@,
        wxf_encoding(WolframValue::Symbol(name)) == framed(text_field(TAG_SYMBOL, name@)),
{
}

} // verus!
