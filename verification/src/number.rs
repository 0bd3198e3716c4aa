//! Numbers of the canonical value: an unsigned integer, a negative integer
//! or a binary64.

use vstd::prelude::*;
use crate::float::Float64;

verus! {

/// A number as a document holds it.
#[derive(Clone, Copy, Debug, PartialEq)]
pub enum Number {
    /// An integer that is not negative.
    PosInt(u64),
    /// An integer below zero in documents that a parser produced; any `i64`
    /// is accepted.
    NegInt(i64),
    /// A number with a fraction or an exponent.
    Float(Float64),
}

/// The encoding of the binary64 nearest to an integer, as the conversion of
/// the JSON number library gives it.
pub uninterp spec fn binary64_of_int(n: int) -> u64;

/// The number that the JSON number library reads from a text, or `None`
/// where the text is not one number.
pub uninterp spec fn number_of_text(text: Seq<char>) -> Option<Number>;

/// `serde_json::Number::from_i128` followed by `serde_json::Number::as_f64`:
/// an integer that fits `u64` or `i64` is held as such by the library and
/// turned into a binary64 by its accessor; any other integer is refused by
/// `from_i128`. The contract names the encoding of that binary64.
#[verifier::external_body]
fn binary64_from_integer(n: i128) -> (r: Option<Float64>)
    ensures
        r == if i64::MIN <= n <= u64::MAX {
            Some(Float64 { bits: binary64_of_int(n as int) })
        } else {
            None
        },
{
    match serde_json::Number::from_i128(n) {
        Some(number) => match number.as_f64() {
            Some(x) => Some(Float64 { bits: x.to_bits() }),
            None => None,
        },
        None => None,
    }
}

/// `<serde_json::Number as FromStr>::from_str`: reads one JSON number that
/// spans the whole text. The contract names the result; the three accessors
/// tell the library's variants apart and move the payload over.
#[verifier::external_body]
pub(crate) fn read_number(text: &str) -> (r: Option<Number>)
    ensures
        r == number_of_text(text@),
{
    match text.parse::<serde_json::Number>() {
        Ok(n) => match (n.as_u64(), n.as_i64(), n.as_f64()) {
            (Some(u), _, _) => Some(Number::PosInt(u)),
            (None, Some(i), _) => Some(Number::NegInt(i)),
            (None, None, Some(x)) => Some(Number::Float(Float64 { bits: x.to_bits() })),
            (None, None, None) => None,
        },
        Err(_) => None,
    }
}

impl Number {
    /// Whether the number is held as an integer.
    pub open spec fn is_integer(self) -> bool {
        self is PosInt || self is NegInt
    }

    /// The number as a binary64: a float is itself, an integer is the
    /// binary64 nearest to it.
    pub open spec fn float_value(self) -> Float64 {
        match self {
            Number::PosInt(u) => Float64 { bits: binary64_of_int(u as int) },
            Number::NegInt(i) => Float64 { bits: binary64_of_int(i as int) },
            Number::Float(f) => f,
        }
    }

    /// Tells whether the number is held as an integer.
    pub fn integer(&self) -> (r: bool)
        ensures
            r == self.is_integer(),
    {
        match self {
            Number::PosInt(_) => true,
            Number::NegInt(_) => true,
            Number::Float(_) => false,
        }
    }

    /// The number as a binary64.
    pub fn as_float(&self) -> (r: Float64)
        ensures
            r == self.float_value(),
    {
        match self {
            Number::PosInt(u) => {
                match binary64_from_integer(*u as i128) {
                    Some(f) => f,
                    None => Float64::zero(),
                }
            },
            Number::NegInt(i) => {
                match binary64_from_integer(*i as i128) {
                    Some(f) => f,
                    None => Float64::zero(),
                }
            },
            Number::Float(f) => *f,
        }
    }
}

} // verus!
