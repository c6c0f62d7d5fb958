use wolfram_wxf::{bool_to_wolfram, number_to_wolfram, ToWolfram, WolframError, WolframValue};

#[test]
fn json_null_encodes_as_none() {
    let v = serde_json::Value::Null;
    assert_eq!(v.to_wolfram_bytes(), Ok(b"8:s\x04None".to_vec()));
    let direct = WolframValue::new_symbol("None").to_bytes();
    assert_eq!(v.to_wolfram_bytes(), direct);
}

#[test]
fn json_bool_and_string() {
    assert_eq!(serde_json::Value::Bool(true).to_wolfram_bytes(), Ok(b"8:s\x04True".to_vec()));
    assert_eq!(serde_json::Value::Bool(false).to_wolfram_string(), Ok("False".to_string()));
    let s = serde_json::Value::String("hi".to_string());
    assert_eq!(s.to_wolfram_bytes(), Ok(b"8:S\x02hi".to_vec()));
}

#[test]
fn json_numbers() {
    let n = serde_json::Value::Number(serde_json::Number::from(5u64));
    assert_eq!(n.to_wolfram_bytes(), Ok(vec![b'8', b':', b'L', 5, 0, 0, 0, 0, 0, 0, 0]));
    let n = serde_json::Value::Number(serde_json::Number::from(-2i64));
    assert_eq!(n.to_wolfram_bytes(), Ok(vec![b'8', b':', b'L', 0xfe, 0xff, 0xff, 0xff, 0xff, 0xff, 0xff, 0xff]));
    let n = serde_json::Value::Number(serde_json::Number::from(u64::MAX));
    assert_eq!(n.to_wolfram_bytes(), Ok(b"8:I\x1418446744073709551615".to_vec()));
    let real = serde_json::Number::from_f64(1.5).unwrap();
    match real.to_wolfram() {
        Ok(WolframValue::Decimal64(bits)) => assert_eq!(bits, 1.5f64.to_bits()),
        other => panic!("unexpected {:?}", other),
    }
}

#[test]
fn json_containers_fail() {
    let a = serde_json::Value::Array(vec![]);
    assert!(matches!(a.to_wolfram(), Err(WolframError::NotImplemented)));
    assert_eq!(a.to_wolfram_bytes(), Err(WolframError::NotImplemented));
    let o = serde_json::Value::Object(serde_json::Map::new());
    assert!(matches!(o.to_wolfram(), Err(WolframError::NotImplemented)));
}

#[test]
fn compressed_conversion_fails() {
    assert_eq!(serde_json::Value::Null.to_wolfram_compressed(), Err(WolframError::NotImplemented));
    assert_eq!(7i32.to_wolfram_compressed(), Err(WolframError::NotImplemented));
}

#[test]
fn number_preference_order() {
    assert!(matches!(number_to_wolfram(Some(3), Some(3), Some(0)), WolframValue::Integer64(3)));
    assert!(matches!(number_to_wolfram(None, Some(-3), Some(0)), WolframValue::Integer64(-3)));
    assert!(matches!(number_to_wolfram(None, None, Some(42)), WolframValue::Decimal64(42)));
    assert!(matches!(number_to_wolfram(None, None, None), WolframValue::Decimal64(0)));
    match number_to_wolfram(Some(u64::MAX), None, None) {
        WolframValue::BigInteger(b) => {
            assert!(!b.negative);
            assert_eq!(b.digits, vec![u32::MAX, u32::MAX]);
        }
        other => panic!("unexpected {:?}", other),
    }
}

#[test]
fn json_values_convert() {
    let null = serde_json::Value::Null.to_wolfram().unwrap();
    assert_eq!(null.to_bytes(), Ok(b"8:s\x04None".to_vec()));
    let s = serde_json::Value::String("x".to_string()).to_wolfram().unwrap();
    assert_eq!(s.to_bytes(), Ok(b"8:S\x01x".to_vec()));
    assert_eq!(serde_json::Value::String("x".to_string()).to_wolfram_string(), Ok("\"x\"".to_string()));
    assert_eq!(bool_to_wolfram(true).to_string(), Ok("True".to_string()));
}

#[test]
fn primitive_conversions() {
    assert_eq!(42i8.to_wolfram_bytes(), Ok(b"8:C\x2a".to_vec()));
    assert_eq!(1i16.to_wolfram_bytes(), Ok(vec![b'8', b':', b'j', 1, 0]));
    assert_eq!((-1i32).to_wolfram_string(), Ok("-1".to_string()));
    assert_eq!("hi".to_string().to_wolfram_bytes(), Ok(b"8:S\x02hi".to_vec()));
    assert_eq!(true.to_wolfram_string(), Ok("True".to_string()));
}
