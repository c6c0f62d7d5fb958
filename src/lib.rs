//! Encoding of symbolic values into the WXF binary exchange format, and
//! conversion of other data into symbolic values.

mod convert;
mod encoding;
pub mod laws;
mod symbols;
mod value;

pub use convert::{
    bool_to_wolfram, json_number_to_wolfram, number_to_wolfram, u64_to_wolfram, ToWolfram,
};
pub use encoding::length_encoding;
pub use symbols::{contains_context_separator, is_system_symbol_name, standardized_symbol_name};
pub use value::{BigInteger, WolframError, WolframValue};
