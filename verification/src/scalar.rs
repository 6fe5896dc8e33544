//! Wire encode/decode rules for the two custom numeric scalar types: an
//! arbitrary-precision signed integer and an arbitrary-precision signed
//! decimal.
//!
//! Scalar values cross the wire as JSON. Numbers are carried by their literal
//! text, since the scalars exceed what a machine word holds. The decimal
//! scalar decodes only from a string and encodes to its exact rendering (no
//! precision loss); the integer scalar does not decode at all and encodes
//! through a documented lossy conversion to the nearest double.
use vstd::prelude::*;

use crate::numtext::{all_digits, is_digit};
use rust_decimal::prelude::ToPrimitive;

verus! {

/// A JSON-shaped wire value.
pub enum WireValue {
    Null,
    Boolean(bool),
    /// A JSON number, carried by its literal text.
    Number(String),
    /// A JSON string.
    Text(String),
    List(Vec<WireValue>),
    Object(Vec<(String, WireValue)>),
}

/// An input-validation error of the scalar codec, surfaced to the client with
/// the bad value echoed.
pub enum CodecError {
    /// The wire value had the wrong shape for the scalar; carries the
    /// offending value.
    ExpectedType(WireValue),
    /// The text did not read as a decimal; carries the offending text.
    InvalidDecimal(String),
    /// Decoding this scalar from client input is not supported.
    UnsupportedInput,
}

/// The canonical rendering of a decimal text: what parsing the text as an
/// arbitrary-precision decimal and printing the exact value again yields;
/// `None` when the text is not a valid decimal.
pub uninterp spec fn dec_canon(s: Seq<char>) -> Option<Seq<char>>;

/// Relies on `bigdecimal::BigDecimal`: `from_str` parses the decimal text and
/// `Display` renders the exact value it denotes, both functions of the text
/// alone. Rendering a parsed value and parsing that rendering again
/// reproduces the same rendering, so a canonical text is a fixed point.
#[verifier::external_body]
fn dec_canonical(s: &str) -> (r: Option<String>)
    ensures
        r matches Some(c) ==> dec_canon(s@) == Some(c@) && dec_canon(c@) == Some(c@),
        r is None ==> dec_canon(s@) is None,
{
    match s.parse::<bigdecimal::BigDecimal>() {
        Ok(d) => Some(d.to_string()),
        Err(_) => None,
    }
}

/// The JSON number text of the double nearest to the integer the text
/// denotes; `None` when that double is not finite. A function of the text
/// alone.
pub uninterp spec fn int_double_text(s: Seq<char>) -> Option<Seq<char>>;

/// Relies on `num_bigint::BigInt::from_str` to read the integer text, on
/// `to_f64` (num-traits `ToPrimitive`, through rust_decimal's prelude) for
/// the nearest-double conversion, and on `serde_json::Number` to render that
/// double as its JSON number text — all functions of the text alone. `None`
/// exactly when the text is no integer or the double is not finite.
#[verifier::external_body]
fn double_text(text: &str) -> (r: Option<String>)
    ensures
        r matches Some(t) ==> int_double_text(text@) == Some(t@),
        r is None ==> int_double_text(text@) is None,
{
    let n = match text.parse::<num_bigint::BigInt>() {
        Ok(n) => n,
        Err(_) => return None,
    };
    let f = match n.to_f64() {
        Some(f) => f,
        None => return None,
    };
    serde_json::Number::from_f64(f).map(|m| m.to_string())
}

/// Whether `s` is canonical integer text: an optional '-', then digits with
/// no leading zero, and no negative zero.
pub open spec fn is_int_text(s: Seq<char>) -> bool {
    let negative = s.len() > 0 && s[0] == '-';
    let digs = if negative {
        s.drop_first()
    } else {
        s
    };
    &&& digs.len() > 0
    &&& all_digits(digs)
    &&& (digs.len() > 1 ==> digs[0] != '0')
    &&& (negative ==> !(digs.len() == 1 && digs[0] == '0'))
}

/// Checks canonical integer text against the grammar above.
fn check_int_text(s: &str) -> (r: bool)
    ensures
        r == is_int_text(s@),
{
    let n = s.unicode_len();
    if n == 0 {
        return false;
    }
    let negative = s.get_char(0) == '-';
    let start: usize = if negative {
        1
    } else {
        0
    };
    let ghost digs = if negative {
        s@.drop_first()
    } else {
        s@
    };
    if start == n {
        return false;
    }
    let mut i: usize = start;
    while i < n
        invariant
            start <= i <= n,
            1 <= n == s@.len(),
            negative == (s@.len() > 0 && s@[0] == '-'),
            start == if negative { 1int } else { 0int },
            start < n,
            digs == if negative { s@.drop_first() } else { s@ },
            forall|j: int| 0 <= j < i - start ==> is_digit(#[trigger] digs[j]),
        decreases n - i,
    {
        let c = s.get_char(i);
        let code: u32 = c as u32;
        if code < 48 || code > 57 {
            proof {
                let k = i - start;
                assert(digs[k] == s@[i as int]);
                assert(!is_digit(digs[k]));
            }
            return false;
        }
        i = i + 1;
    }
    assert(all_digits(digs));
    let d0 = s.get_char(start);
    if n - start > 1 && d0 == '0' {
        assert(digs[0] == s@[start as int]);
        return false;
    }
    if negative && n - start == 1 && d0 == '0' {
        assert(digs[0] == s@[start as int]);
        return false;
    }
    proof {
        assert(digs[0] == s@[start as int]);
    }
    true
}

/// Arbitrary-precision signed integer scalar, carried as its canonical
/// decimal text. Serializes through a lossy conversion to the nearest
/// double: magnitudes beyond 2^53 lose exact digits on output. Decoding from
/// client input is unsupported in the current contract.
#[derive(PartialEq, Eq, Debug)]
pub struct BigInt {
    text: String,
}

impl View for BigInt {
    type V = Seq<char>;

    closed spec fn view(&self) -> Seq<char> {
        self.text@
    }
}

impl BigInt {
    #[verifier::type_invariant]
    spec fn canonical(self) -> bool {
        is_int_text(self.text@)
    }

    /// Builds the scalar from canonical integer text.
    pub fn from_text(s: &str) -> (r: Option<BigInt>)
        ensures
            r is Some <==> is_int_text(s@),
            r matches Some(b) ==> b@ == s@,
    {
        if check_int_text(s) {
            Some(BigInt { text: s.to_owned() })
        } else {
            None
        }
    }

    /// The canonical decimal text of the integer.
    pub fn as_text(&self) -> (r: &String)
        ensures
            r@ == self@,
    {
        &self.text
    }

    /// Decoding an arbitrary-precision integer from client input is not
    /// implemented in this contract: every wire value fails.
    pub fn parse(value: WireValue) -> (r: Result<BigInt, CodecError>)
        ensures
            r == Result::<BigInt, CodecError>::Err(CodecError::UnsupportedInput),
    {
        match value {
            _ => Err(CodecError::UnsupportedInput),
        }
    }

    /// Encodes the integer as the JSON number nearest to it in double
    /// precision — lossy beyond 2^53 — or JSON null when no finite double is
    /// near enough.
    pub fn to_json(&self) -> (r: WireValue)
        ensures
            r matches WireValue::Number(t) ==> int_double_text(self@) == Some(t@),
            r is Null <==> int_double_text(self@) is None,
            r is Null || r is Number,
    {
        match double_text(self.text.as_str()) {
            Some(t) => WireValue::Number(t),
            None => WireValue::Null,
        }
    }
}

/// Arbitrary-precision signed decimal scalar, carried as its canonical
/// rendering. Decodes only from a string; encodes to the exact rendering,
/// preserving all significant digits.
#[derive(PartialEq, Eq, Debug)]
pub struct BigDecimal {
    text: String,
}

impl View for BigDecimal {
    type V = Seq<char>;

    closed spec fn view(&self) -> Seq<char> {
        self.text@
    }
}

impl BigDecimal {
    #[verifier::type_invariant]
    spec fn canonical(self) -> bool {
        dec_canon(self.text@) == Some(self.text@)
    }

    /// Builds the scalar from decimal text, canonicalizing it; fails exactly
    /// when the text is no valid decimal.
    pub fn from_text(s: &str) -> (r: Option<BigDecimal>)
        ensures
            r is Some <==> dec_canon(s@) is Some,
            r matches Some(d) ==> dec_canon(s@) == Some(d@),
    {
        match dec_canonical(s) {
            Some(c) => Some(BigDecimal { text: c }),
            None => None,
        }
    }

    /// The canonical rendering of the decimal.
    pub fn as_text(&self) -> (r: &String)
        ensures
            r@ == self@,
    {
        &self.text
    }

    /// Decodes the decimal scalar: only a string wire value is accepted, and
    /// its text must read as a decimal; any other shape fails with a
    /// type-mismatch error carrying the offending value.
    pub fn parse(value: WireValue) -> (r: Result<BigDecimal, CodecError>)
        ensures
            value matches WireValue::Text(s) ==> match dec_canon(s@) {
                Some(c) => r matches Ok(d) && d@ == c,
                None => r == Result::<BigDecimal, CodecError>::Err(CodecError::InvalidDecimal(s)),
            },
            !(value matches WireValue::Text(_)) ==> r == Result::<BigDecimal, CodecError>::Err(
                CodecError::ExpectedType(value),
            ),
    {
        match value {
            WireValue::Text(s) => match BigDecimal::from_text(s.as_str()) {
                Some(d) => Ok(d),
                None => Err(CodecError::InvalidDecimal(s)),
            },
            other => Err(CodecError::ExpectedType(other)),
        }
    }

    /// Encodes the decimal as the JSON string of its exact rendering.
    pub fn to_json(&self) -> (r: WireValue)
        ensures
            r matches WireValue::Text(t) && t@ == self@,
    {
        WireValue::Text(self.text.clone())
    }
}

/// Law (round-trip exactness): a decimal value, once encoded, decodes again
/// to the very same value — no precision loss, for every decimal the codec
/// can hold.
pub fn decimal_round_trip(d: &BigDecimal) -> (r: Result<BigDecimal, CodecError>)
    ensures
        r matches Ok(again) && again@ == d@,
{
    proof {
        use_type_invariant(d);
    }
    BigDecimal::parse(d.to_json())
}

} // verus!
