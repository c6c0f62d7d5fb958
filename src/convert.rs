use crate::encoding::{bytes_outcome, wxf_encoding, wxf_text};
use crate::value::{BigInteger, WolframError, WolframValue};
use vstd::prelude::*;
use vstd::string::*;

verus! {

#[verifier::external_type_specification]
#[verifier::external_body]
pub struct ExJsonValue(serde_json::Value);

#[verifier::external_type_specification]
#[verifier::external_body]
pub struct ExJsonNumber(serde_json::Number);

/// What `serde_json::Number::as_u64` reads from a number.
pub uninterp spec fn number_u64_of(n: serde_json::Number) -> Option<u64>;

/// What `serde_json::Number::as_i64` reads from a number.
pub uninterp spec fn number_i64_of(n: serde_json::Number) -> Option<i64>;

/// The bit pattern of what `serde_json::Number::as_f64` reads from a number.
pub uninterp spec fn number_bits_of(n: serde_json::Number) -> Option<u64>;

/// Whether `serde_json::Value::is_null` finds the value to be `null`.
pub uninterp spec fn json_is_null(v: serde_json::Value) -> bool;

/// What `serde_json::Value::as_bool` reads from a value.
pub uninterp spec fn json_bool_of(v: serde_json::Value) -> Option<bool>;

/// The number that `serde_json::Value::as_number` finds in a value.
pub uninterp spec fn json_number_of(v: serde_json::Value) -> Option<serde_json::Number>;

/// The text that `serde_json::Value::as_str` finds in a value.
pub uninterp spec fn json_str_of(v: serde_json::Value) -> Option<Seq<char>>;

/// Relies on `serde_json::Value::is_null`: whether the value is `null`.
pub assume_specification[ serde_json::Value::is_null ](v: &serde_json::Value) -> (r: bool)
    ensures
        r == json_is_null(*v),
;

/// Relies on `serde_json::Value::as_bool`: the boolean the value holds, if
/// it is one.
pub assume_specification[ serde_json::Value::as_bool ](v: &serde_json::Value) -> (r: Option<bool>)
    ensures
        r == json_bool_of(*v),
;

/// Relies on `serde_json::Value::as_number`: the number the value holds, if
/// it is one.
pub assume_specification[ serde_json::Value::as_number ](v: &serde_json::Value) -> (r: Option<
    &serde_json::Number,
>)
    ensures
        match r {
            Some(n) => json_number_of(*v) == Some(*n),
            None => json_number_of(*v) is None,
        },
;

/// Relies on `serde_json::Value::as_str`: the text the value holds, if it
/// is a string.
pub assume_specification[ serde_json::Value::as_str ](v: &serde_json::Value) -> (r: Option<&str>)
    ensures
        match r {
            Some(t) => json_str_of(*v) == Some(t@),
            None => json_str_of(*v) is None,
        },
;

/// Relies on `serde_json::Number::as_u64`: the number when it is a
/// non-negative integer; it depends on the number alone.
pub assume_specification[ serde_json::Number::as_u64 ](n: &serde_json::Number) -> (r: Option<u64>)
    ensures
        r == number_u64_of(*n),
;

/// Relies on `serde_json::Number::as_i64`: the number when it is an integer
/// that fits in `i64`; it depends on the number alone.
pub assume_specification[ serde_json::Number::as_i64 ](n: &serde_json::Number) -> (r: Option<i64>)
    ensures
        r == number_i64_of(*n),
;

/// The symbolic value of a number from what it reads as: a non-negative
/// integer if it is one (64-bit where it fits, else arbitrary-precision),
/// else a signed integer, else a real given by its bit pattern, zero where
/// no real can be read.
pub open spec fn is_number_value(
    r: WolframValue,
    unsigned: Option<u64>,
    signed: Option<i64>,
    real_bits: Option<u64>,
) -> bool {
    match unsigned {
        Some(u) => if u <= i64::MAX {
            r == WolframValue::Integer64(u as i64)
        } else {
            r is BigInteger && r->BigInteger_0.value() == u as int
        },
        None => match signed {
            Some(i) => r == WolframValue::Integer64(i),
            None => r == WolframValue::Decimal64(
                match real_bits {
                    Some(b) => b,
                    None => 0,
                },
            ),
        },
    }
}

/// A type whose values can be turned into a symbolic value.
pub trait ToWolfram {
    /// Whether `r` is what `to_wolfram` gives for `self`.
    spec fn converts_to(&self, r: Result<WolframValue, WolframError>) -> bool;

    /// The symbolic value for `self`, or an error where there is none.
    fn to_wolfram(&self) -> (r: Result<WolframValue, WolframError>)
        ensures
            self.converts_to(r),
    ;

    /// The debug text of the symbolic value of `self`, or the error that
    /// conversion gave.
    fn to_wolfram_string(&self) -> (r: Result<String, WolframError>)
        ensures
            exists|c: Result<WolframValue, WolframError>|
                #[trigger] self.converts_to(c) && match c {
                    Ok(v) => match wxf_text(v) {
                        Some(t) => r is Ok && r->Ok_0@ == t,
                        None => r is Err && r->Err_0 == WolframError::NotImplemented,
                    },
                    Err(e) => r is Err && r->Err_0 == e,
                },
    {
        let c = self.to_wolfram();
        let ghost g = c;
        let r = match c {
            Ok(v) => v.to_string(),
            Err(e) => Err(e),
        };
        assert(self.converts_to(g));
        r
    }

    /// The uncompressed stream of the symbolic value of `self`, or the error
    /// that conversion gave.
    fn to_wolfram_bytes(&self) -> (r: Result<Vec<u8>, WolframError>)
        ensures
            exists|c: Result<WolframValue, WolframError>|
                #[trigger] self.converts_to(c) && match c {
                    Ok(v) => bytes_outcome(r, wxf_encoding(v)),
                    Err(e) => r is Err && r->Err_0 == e,
                },
    {
        let c = self.to_wolfram();
        let ghost g = c;
        let r = match c {
            Ok(v) => v.to_bytes(),
            Err(e) => Err(e),
        };
        assert(self.converts_to(g));
        r
    }

    /// Compressed output is not supported: it always fails.
    fn to_wolfram_compressed(&self) -> (r: Result<Vec<u8>, WolframError>)
        ensures
            r is Err && r->Err_0 == WolframError::NotImplemented,
    {
        match self.to_wolfram() {
            Ok(v) => v.to_compressed(),
            Err(_) => Err(WolframError::NotImplemented),
        }
    }
}

/// The symbol for a truth value: `True` or `False`.
pub fn bool_to_wolfram(b: bool) -> (r: WolframValue)
    ensures
        r is Symbol,
        r->Symbol_0@ == (if b { "True"@ } else { "False"@ }),
{
    if b {
        WolframValue::new_symbol("True")
    } else {
        WolframValue::new_symbol("False")
    }
}

/// The integer `n`: a 64-bit integer where it fits, else an
/// arbitrary-precision one.
pub fn u64_to_wolfram(n: u64) -> (r: WolframValue)
    ensures
        n <= i64::MAX ==> r == WolframValue::Integer64(n as i64),
        n > i64::MAX ==> r is BigInteger && r->BigInteger_0.value() == n as int,
{
    if n <= 0x7fff_ffff_ffff_ffff {
        WolframValue::Integer64(n as i64)
    } else {
        WolframValue::BigInteger(BigInteger::from_u64(n))
    }
}

/// The symbolic value of a JSON number, from what it reads as: a
/// non-negative integer if it is one, else a signed integer, else a real
/// given by its bit pattern. A real that cannot be read becomes zero.
pub fn number_to_wolfram(unsigned: Option<u64>, signed: Option<i64>, real_bits: Option<u64>) -> (r:
    WolframValue)
    ensures
        is_number_value(r, unsigned, signed, real_bits),
{
    match unsigned {
        Some(u) => u64_to_wolfram(u),
        None => match signed {
            Some(i) => WolframValue::Integer64(i),
            None => match real_bits {
                Some(b) => WolframValue::Decimal64(b),
                None => WolframValue::Decimal64(0),
            },
        },
    }
}

/// Relies on `serde_json::Number::as_f64`: the bit pattern of the number
/// read as a real, where it can be read; it depends on the number alone.
#[verifier::external_body]
fn number_real_bits(n: &serde_json::Number) -> (r: Option<u64>)
    ensures
        r == number_bits_of(*n),
{
    n.as_f64().map(|x| x.to_bits())
}

/// The symbolic value of a JSON number, from what it reads as.
pub open spec fn is_json_number_value(r: WolframValue, n: serde_json::Number) -> bool {
    is_number_value(r, number_u64_of(n), number_i64_of(n), number_bits_of(n))
}

/// The symbolic value of a JSON number; see `number_to_wolfram`.
pub fn json_number_to_wolfram(n: &serde_json::Number) -> (r: WolframValue)
    ensures
        is_json_number_value(r, *n),
{
    number_to_wolfram(n.as_u64(), n.as_i64(), number_real_bits(n))
}

impl ToWolfram for bool {
    open spec fn converts_to(&self, r: Result<WolframValue, WolframError>) -> bool {
        r is Ok && r->Ok_0 is Symbol && r->Ok_0->Symbol_0@ == (if *self { "True"@ } else { "False"@ })
    }

    fn to_wolfram(&self) -> (r: Result<WolframValue, WolframError>) {
        Ok(bool_to_wolfram(*self))
    }
}

impl ToWolfram for i8 {
    open spec fn converts_to(&self, r: Result<WolframValue, WolframError>) -> bool {
        r == Ok::<WolframValue, WolframError>(WolframValue::Integer8(*self))
    }

    fn to_wolfram(&self) -> (r: Result<WolframValue, WolframError>) {
        Ok(WolframValue::Integer8(*self))
    }
}

impl ToWolfram for i16 {
    open spec fn converts_to(&self, r: Result<WolframValue, WolframError>) -> bool {
        r == Ok::<WolframValue, WolframError>(WolframValue::Integer16(*self))
    }

    fn to_wolfram(&self) -> (r: Result<WolframValue, WolframError>) {
        Ok(WolframValue::Integer16(*self))
    }
}

impl ToWolfram for i32 {
    open spec fn converts_to(&self, r: Result<WolframValue, WolframError>) -> bool {
        r == Ok::<WolframValue, WolframError>(WolframValue::Integer32(*self))
    }

    fn to_wolfram(&self) -> (r: Result<WolframValue, WolframError>) {
        Ok(WolframValue::Integer32(*self))
    }
}

impl ToWolfram for i64 {
    open spec fn converts_to(&self, r: Result<WolframValue, WolframError>) -> bool {
        r == Ok::<WolframValue, WolframError>(WolframValue::Integer64(*self))
    }

    fn to_wolfram(&self) -> (r: Result<WolframValue, WolframError>) {
        Ok(WolframValue::Integer64(*self))
    }
}

impl ToWolfram for u64 {
    open spec fn converts_to(&self, r: Result<WolframValue, WolframError>) -> bool {
        r is Ok && is_number_value(r->Ok_0, Some(*self), None, None)
    }

    fn to_wolfram(&self) -> (r: Result<WolframValue, WolframError>) {
        Ok(u64_to_wolfram(*self))
    }
}

impl ToWolfram for String {
    open spec fn converts_to(&self, r: Result<WolframValue, WolframError>) -> bool {
        r is Ok && r->Ok_0 is String && r->Ok_0->String_0@ == self@
    }

    fn to_wolfram(&self) -> (r: Result<WolframValue, WolframError>) {
        Ok(WolframValue::String(self.clone()))
    }
}

impl ToWolfram for serde_json::Number {
    open spec fn converts_to(&self, r: Result<WolframValue, WolframError>) -> bool {
        r is Ok && is_json_number_value(r->Ok_0, *self)
    }

    fn to_wolfram(&self) -> (r: Result<WolframValue, WolframError>) {
        Ok(json_number_to_wolfram(self))
    }
}

/// The symbolic value of a JSON value: `null` is the symbol `None`, a
/// boolean is `True` or `False`, a number is converted as
/// `json_number_to_wolfram` does, a string is a string value, and arrays
/// and objects are not supported.
pub open spec fn is_json_value(r: Result<WolframValue, WolframError>, v: serde_json::Value) -> bool {
    if json_is_null(v) {
        r is Ok && r->Ok_0 is Symbol && r->Ok_0->Symbol_0@ == "None"@
    } else {
        match json_bool_of(v) {
            Some(b) => r is Ok && r->Ok_0 is Symbol && r->Ok_0->Symbol_0@ == (if b {
                "True"@
            } else {
                "False"@
            }),
            None => match json_number_of(v) {
                Some(n) => r is Ok && is_json_number_value(r->Ok_0, n),
                None => match json_str_of(v) {
                    Some(t) => r is Ok && r->Ok_0 is String && r->Ok_0->String_0@ == t,
                    None => r is Err && r->Err_0 == WolframError::NotImplemented,
                },
            },
        }
    }
}

impl ToWolfram for serde_json::Value {
    open spec fn converts_to(&self, r: Result<WolframValue, WolframError>) -> bool {
        is_json_value(r, *self)
    }

    fn to_wolfram(&self) -> (r: Result<WolframValue, WolframError>) {
        if self.is_null() {
            return Ok(WolframValue::new_symbol("None"));
        }
        match self.as_bool() {
            Some(b) => Ok(bool_to_wolfram(b)),
            None => match self.as_number() {
                Some(n) => Ok(json_number_to_wolfram(n)),
                None => match self.as_str() {
                    Some(t) => Ok(WolframValue::String(String::from_str(t))),
                    None => Err(WolframError::NotImplemented),
                },
            },
        }
    }
}

} // verus!
