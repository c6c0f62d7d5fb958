use wolfram_wxf::{
    length_encoding, standardized_symbol_name, BigInteger, WolframError, WolframValue,
};

fn encode(v: &WolframValue) -> Vec<u8> {
    v.to_bytes().unwrap()
}

#[test]
fn reserved_symbol_none_stays_unqualified() {
    let v = WolframValue::new_symbol("None");
    assert_eq!(encode(&v), b"8:s\x04None".to_vec());
}

#[test]
fn bare_symbol_goes_to_global_context() {
    let v = WolframValue::new_symbol("foo");
    assert_eq!(encode(&v), b"8:s\x0aGlobal`foo".to_vec());
}

#[test]
fn short_string_encoding() {
    let v = WolframValue::new_string("hi");
    assert_eq!(encode(&v), b"8:S\x02hi".to_vec());
}

#[test]
fn integer32_minus_one() {
    assert_eq!(encode(&WolframValue::Integer32(-1)), b"8:i\xff\xff\xff\xff".to_vec());
}

#[test]
fn integer8_max() {
    assert_eq!(encode(&WolframValue::Integer8(127)), b"8:C\x7f".to_vec());
}

#[test]
fn string_of_200_bytes_is_not_implemented() {
    let s = "a".repeat(200);
    let v = WolframValue::new_string(&s);
    assert_eq!(v.to_bytes(), Err(WolframError::NotImplemented));
}

#[test]
fn string_of_127_bytes_is_encoded() {
    let s = "b".repeat(127);
    let out = encode(&WolframValue::new_string(&s));
    assert_eq!(out.len(), 4 + 127);
    assert_eq!(&out[..4], &[b'8', b':', b'S', 127]);
    assert_eq!(&out[4..], s.as_bytes());
}

#[test]
fn string_of_128_bytes_is_not_implemented() {
    let s = "c".repeat(128);
    assert_eq!(WolframValue::new_string(&s).to_bytes(), Err(WolframError::NotImplemented));
}

#[test]
fn empty_string_encoding() {
    assert_eq!(encode(&WolframValue::new_string("")), b"8:S\x00".to_vec());
}

#[test]
fn multibyte_string_counts_bytes() {
    let out = encode(&WolframValue::new_string("é"));
    assert_eq!(out, vec![b'8', b':', b'S', 2, 0xc3, 0xa9]);
}

#[test]
fn qualified_symbol_is_unchanged() {
    assert_eq!(encode(&WolframValue::new_symbol("System`List")), b"8:s\x0bSystem`List".to_vec());
    assert_eq!(encode(&WolframValue::new_symbol("My`None")), b"8:s\x07My`None".to_vec());
}

#[test]
fn standardized_names() {
    assert_eq!(standardized_symbol_name("True"), "True");
    assert_eq!(standardized_symbol_name("x"), "Global`x");
    assert_eq!(standardized_symbol_name("a`b"), "a`b");
    assert_eq!(standardized_symbol_name(""), "Global`");
}

#[test]
fn long_symbol_is_not_implemented() {
    let name = "s".repeat(125);
    assert_eq!(WolframValue::new_symbol(&name).to_bytes(), Err(WolframError::NotImplemented));
    let name = "s".repeat(120);
    assert_eq!(encode(&WolframValue::new_symbol(&name)).len(), 4 + 127);
}

#[test]
fn length_prefix_values() {
    assert_eq!(length_encoding(""), Ok(vec![0]));
    assert_eq!(length_encoding("abc"), Ok(vec![3]));
    assert_eq!(length_encoding(&"x".repeat(127)), Ok(vec![127]));
    assert_eq!(length_encoding(&"x".repeat(128)), Err(WolframError::NotImplemented));
}

#[test]
fn integer_widths_little_endian() {
    assert_eq!(encode(&WolframValue::Integer8(-128)), vec![b'8', b':', b'C', 0x80]);
    assert_eq!(encode(&WolframValue::Integer16(0x1234)), vec![b'8', b':', b'j', 0x34, 0x12]);
    assert_eq!(encode(&WolframValue::Integer16(-2)), vec![b'8', b':', b'j', 0xfe, 0xff]);
    assert_eq!(
        encode(&WolframValue::Integer32(0x01020304)),
        vec![b'8', b':', b'i', 4, 3, 2, 1]
    );
    assert_eq!(
        encode(&WolframValue::Integer64(i64::MIN)),
        vec![b'8', b':', b'L', 0, 0, 0, 0, 0, 0, 0, 0x80]
    );
    assert_eq!(
        encode(&WolframValue::Integer64(1)),
        vec![b'8', b':', b'L', 1, 0, 0, 0, 0, 0, 0, 0]
    );
}

fn decode_le(bytes: &[u8]) -> i64 {
    let mut u: u64 = 0;
    for (k, b) in bytes.iter().enumerate() {
        u |= (*b as u64) << (8 * k);
    }
    let bits = 8 * bytes.len() as u32;
    if bits < 64 && u >= 1u64 << (bits - 1) {
        u as i64 - (1i64 << bits)
    } else {
        u as i64
    }
}

#[test]
fn integers_round_trip() {
    for n in [i8::MIN, -1, 0, 1, i8::MAX] {
        let out = encode(&WolframValue::Integer8(n));
        assert_eq!(decode_le(&out[3..]), n as i64);
    }
    for n in [i16::MIN, -300, 0, 300, i16::MAX] {
        let out = encode(&WolframValue::Integer16(n));
        assert_eq!(decode_le(&out[3..]), n as i64);
    }
    for n in [i32::MIN, -70000, 0, 70000, i32::MAX] {
        let out = encode(&WolframValue::Integer32(n));
        assert_eq!(decode_le(&out[3..]), n as i64);
    }
    for n in [i64::MIN, -5_000_000_000, 0, 5_000_000_000, i64::MAX] {
        let out = encode(&WolframValue::Integer64(n));
        assert_eq!(decode_le(&out[3..]), n);
    }
}

#[test]
fn big_integer_decimal_payload() {
    let v = WolframValue::BigInteger(BigInteger::new(true, vec![1, 1]));
    assert_eq!(encode(&v), b"8:I\x0b-4294967297".to_vec());
    let v = WolframValue::BigInteger(BigInteger::from_u64(u64::MAX));
    assert_eq!(encode(&v), b"8:I\x1418446744073709551615".to_vec());
    let v = WolframValue::BigInteger(BigInteger::from_i64(-7));
    assert_eq!(encode(&v), b"8:I\x02-7".to_vec());
    let v = WolframValue::BigInteger(BigInteger::new(true, vec![]));
    assert_eq!(encode(&v), b"8:I\x010".to_vec());
}

#[test]
fn unsupported_variants_fail() {
    for v in [
        WolframValue::Function,
        WolframValue::Bytes,
        WolframValue::Decimal64(0),
        WolframValue::BigDecimal("1.5".to_string()),
        WolframValue::PackedArray,
        WolframValue::NumericArray(vec![WolframValue::Integer8(1)]),
        WolframValue::Association,
        WolframValue::Rule,
        WolframValue::RuleDelayed,
    ] {
        assert_eq!(v.to_bytes(), Err(WolframError::NotImplemented));
        assert_eq!(v.to_string(), Err(WolframError::NotImplemented));
    }
}

#[test]
fn compressed_output_fails() {
    assert_eq!(WolframValue::Integer8(1).to_compressed(), Err(WolframError::NotImplemented));
}

#[test]
fn debug_text_rendering() {
    assert_eq!(WolframValue::new_string("a\"b").to_string(), Ok("\"a\\\"b\"".to_string()));
    assert_eq!(WolframValue::new_symbol("foo").to_string(), Ok("foo".to_string()));
    assert_eq!(WolframValue::Integer32(-1).to_string(), Ok("-1".to_string()));
    assert_eq!(WolframValue::Integer8(-128).to_string(), Ok("-128".to_string()));
    assert_eq!(WolframValue::Integer64(i64::MAX).to_string(), Ok("9223372036854775807".to_string()));
}

#[test]
fn big_integer_debug_text() {
    let v = WolframValue::BigInteger(BigInteger::new(true, vec![1, 1]));
    assert_eq!(v.to_string(), Ok("-4294967297".to_string()));
    let v = WolframValue::BigInteger(BigInteger::from_u64(u64::MAX));
    assert_eq!(v.to_string(), Ok("18446744073709551615".to_string()));
    let v = WolframValue::BigInteger(BigInteger::new(false, vec![]));
    assert_eq!(v.to_string(), Ok("0".to_string()));
}
