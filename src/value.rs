use vstd::prelude::*;
use vstd::string::*;

verus! {

/// Why an operation could not be carried out.
#[derive(Debug, Clone, Copy, PartialEq, Eq, Structural)]
pub enum WolframError {
    /// The value, the length or the output mode is not supported yet.
    NotImplemented,
}

/// An arbitrary-precision signed integer: a sign and a magnitude in
/// base 2^32 digits, least significant digit first.
#[derive(Debug, Clone)]
pub struct BigInteger {
    pub negative: bool,
    pub digits: Vec<u32>,
}

/// The number written by base 2^32 digits, least significant first.
pub open spec fn digits_value(d: Seq<u32>) -> nat
    decreases d.len(),
{
    if d.len() == 0 {
        0
    } else {
        d[0] as nat + 4294967296 * digits_value(d.drop_first())
    }
}

impl BigInteger {
    /// The integer this value stands for.
    pub open spec fn value(&self) -> int {
        if self.negative {
            -digits_value(self.digits@)
        } else {
            digits_value(self.digits@) as int
        }
    }

    /// Builds the integer with the given sign and magnitude digits.
    pub fn new(negative: bool, digits: Vec<u32>) -> (r: BigInteger)
        ensures
            r.negative == negative,
            r.digits@ == digits@,
    {
        BigInteger { negative, digits }
    }

    /// The integer equal to `n`.
    pub fn from_u64(n: u64) -> (r: BigInteger)
        ensures
            r.value() == n as int,
    {
        let lo: u32 = (n % 4294967296) as u32;
        let hi: u32 = (n / 4294967296) as u32;
        let mut digits: Vec<u32> = Vec::new();
        digits.push(lo);
        digits.push(hi);
        let r = BigInteger { negative: false, digits };
        proof {
            let d = r.digits@;
            assert(d.drop_first().drop_first().len() == 0);
            assert(digits_value(d.drop_first().drop_first()) == 0);
            assert(d.drop_first()[0] == hi);
            assert(digits_value(d.drop_first()) == hi as nat);
            assert(d[0] == lo);
            assert(n == lo + 4294967296 * hi);
        }
        r
    }

    /// The integer equal to `n`.
    pub fn from_i64(n: i64) -> (r: BigInteger)
        ensures
            r.value() == n as int,
    {
        if n < 0 {
            let magnitude: u64 = (-(n as i128)) as u64;
            let m = BigInteger::from_u64(magnitude);
            BigInteger { negative: true, digits: m.digits }
        } else {
            BigInteger::from_u64(n as u64)
        }
    }
}

/// A symbolic value that can be encoded.
#[derive(Debug)]
pub enum WolframValue {
    Function,
    String(String),
    Bytes,
    Symbol(String),
    Integer8(i8),
    Integer16(i16),
    Integer32(i32),
    Integer64(i64),
    /// A double-precision real, held as its IEEE 754 bit pattern.
    Decimal64(u64),
    BigInteger(BigInteger),
    BigDecimal(String),
    PackedArray,
    NumericArray(Vec<WolframValue>),
    Association,
    Rule,
    RuleDelayed,
}

impl WolframValue {
    /// A symbol with the given name, kept as written.
    pub fn new_symbol(name: &str) -> (r: WolframValue)
        ensures
            r is Symbol && r->Symbol_0@ == name@,
    {
        WolframValue::Symbol(String::from_str(name))
    }

    /// A string value holding `text`.
    pub fn new_string(text: &str) -> (r: WolframValue)
        ensures
            r is String && r->String_0@ == text@,
    {
        WolframValue::String(String::from_str(text))
    }
}

} // verus!
