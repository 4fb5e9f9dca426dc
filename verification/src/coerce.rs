//! Value coercion: the canonical text of a JSON field value.

use vstd::prelude::*;
use vstd::string::StringExecFns;

verus! {

/// A JSON value of any shape, as the JSON library holds it.
#[verifier::external_type_specification]
#[verifier::external_body]
pub struct ExJsonValue(serde_json::Value);

/// The error with which the JSON library reports a failed serialization.
#[verifier::external_type_specification]
#[verifier::external_body]
pub struct ExJsonError(serde_json::Error);

/// A JSON number: an integer held exactly, or a fractional number held as
/// the decimal text it is written with.
#[derive(Debug, PartialEq)]
pub enum JsonNumber {
    /// An integer from zero up.
    PosInt(u64),
    /// An integer that may be negative.
    NegInt(i64),
    /// Any other number, by its decimal text.
    Decimal(String),
}

/// A field value as the matching functions meet it.
#[derive(Debug, PartialEq)]
pub enum JsonScalar {
    Bool(bool),
    Number(JsonNumber),
    String(String),
    /// A value that is no scalar: null, an array or an object.
    Other(serde_json::Value),
}

/// Why a value that is no scalar has no canonical text: the JSON library
/// could not write it.
#[derive(Debug)]
pub struct CoercionAnomaly {
    pub cause: serde_json::Error,
}

/// The character of one decimal digit.
pub open spec fn digit_char(d: nat) -> char
    recommends
        d < 10,
{
    (48 + d) as char
}

/// The decimal numeral of a natural number, without leading zeros.
pub open spec fn decimal(n: nat) -> Seq<char>
    decreases n,
{
    if n < 10 {
        seq![digit_char(n)]
    } else {
        decimal(n / 10).push(digit_char(n % 10))
    }
}

/// The decimal numeral of an integer: a minus sign before the numeral of the
/// magnitude where the integer is negative.
pub open spec fn signed_decimal(n: int) -> Seq<char> {
    if n < 0 {
        seq!['-'] + decimal((-n) as nat)
    } else {
        decimal(n as nat)
    }
}

/// Whether a character is a decimal digit.
pub open spec fn is_digit(c: char) -> bool {
    '0' <= c && c <= '9'
}

/// The natural number that a run of decimal digits writes; `None` for the
/// empty run and for a run that holds anything but digits.
pub open spec fn parse_decimal(s: Seq<char>) -> Option<nat>
    decreases s.len(),
{
    if s.len() == 0 || !is_digit(s.last()) {
        None
    } else if s.len() == 1 {
        Some((s.last() as nat - 48) as nat)
    } else {
        match parse_decimal(s.drop_last()) {
            Some(high) => Some((high * 10 + (s.last() as nat - 48)) as nat),
            None => None,
        }
    }
}

/// The integer that a text writes: an optional minus sign, then digits.
pub open spec fn parse_integer(s: Seq<char>) -> Option<int> {
    if s.len() > 0 && s[0] == '-' {
        match parse_decimal(s.drop_first()) {
            Some(magnitude) => Some(-(magnitude as int)),
            None => None,
        }
    } else {
        match parse_decimal(s) {
            Some(magnitude) => Some(magnitude as int),
            None => None,
        }
    }
}

/// The canonical text of a number.
pub open spec fn number_text(n: JsonNumber) -> Seq<char> {
    match n {
        JsonNumber::PosInt(u) => decimal(u as nat),
        JsonNumber::NegInt(i) => signed_decimal(i as int),
        JsonNumber::Decimal(text) => text@,
    }
}

/// The standard JSON text of a value of any shape: what
/// `serde_json::to_string` writes for it.
pub uninterp spec fn json_text_of(value: serde_json::Value) -> Seq<char>;

/// The canonical text of a field value.
pub open spec fn canonical_text(v: JsonScalar) -> Seq<char> {
    match v {
        JsonScalar::Bool(b) => if b { "true"@ } else { "false"@ },
        JsonScalar::Number(n) => number_text(n),
        JsonScalar::String(s) => s@,
        JsonScalar::Other(value) => json_text_of(value),
    }
}

/// Reading a numeral back gives the number it was written from.
pub proof fn lemma_decimal_round_trip(n: nat)
    ensures
        parse_decimal(decimal(n)) == Some(n),
        decimal(n).len() > 0,
        forall|k: int| 0 <= k < decimal(n).len() ==> is_digit(#[trigger] decimal(n)[k]),
    decreases n,
{
    if n < 10 {
        assert(decimal(n).last() == digit_char(n));
    } else {
        lemma_decimal_round_trip(n / 10);
        let high = decimal(n / 10);
        let all = decimal(n);
        assert(all.drop_last() =~= high);
        assert(all.last() == digit_char(n % 10));
        assert(all.len() > 1);
    }
}

/// Reading the text of a signed integer back gives that integer.
pub proof fn lemma_signed_round_trip(n: int)
    ensures
        parse_integer(signed_decimal(n)) == Some(n),
{
    if n < 0 {
        let m = (-n) as nat;
        lemma_decimal_round_trip(m);
        let text = signed_decimal(n);
        assert(text.drop_first() =~= decimal(m));
    } else {
        lemma_decimal_round_trip(n as nat);
        let text = decimal(n as nat);
        assert(is_digit(text[0]));
    }
}

/// The text of an integer-valued number, read back as an integer, is the
/// number's value: coercion loses nothing of a 64-bit integer.
pub proof fn lemma_integer_text_round_trip(n: JsonNumber)
    ensures
        n matches JsonNumber::PosInt(u) ==> parse_integer(number_text(n)) == Some(u as int),
        n matches JsonNumber::NegInt(i) ==> parse_integer(number_text(n)) == Some(i as int),
{
    match n {
        JsonNumber::PosInt(u) => {
            lemma_signed_round_trip(u as int);
        },
        JsonNumber::NegInt(i) => {
            lemma_signed_round_trip(i as int);
        },
        JsonNumber::Decimal(_) => {},
    }
}

/// The one-character text of a decimal digit.
fn digit_text(d: u64) -> (r: &'static str)
    requires
        d < 10,
    ensures
        r@ == seq![digit_char(d as nat)],
{
    proof {
        reveal_strlit("0");
        reveal_strlit("1");
        reveal_strlit("2");
        reveal_strlit("3");
        reveal_strlit("4");
        reveal_strlit("5");
        reveal_strlit("6");
        reveal_strlit("7");
        reveal_strlit("8");
        reveal_strlit("9");
    }
    let r = if d == 0 {
        "0"
    } else if d == 1 {
        "1"
    } else if d == 2 {
        "2"
    } else if d == 3 {
        "3"
    } else if d == 4 {
        "4"
    } else if d == 5 {
        "5"
    } else if d == 6 {
        "6"
    } else if d == 7 {
        "7"
    } else if d == 8 {
        "8"
    } else {
        "9"
    };
    assert(r@ =~= seq![digit_char(d as nat)]);
    r
}

/// Writes a natural number as its decimal numeral.
pub fn format_unsigned(n: u64) -> (r: String)
    ensures
        r@ == decimal(n as nat),
{
    let mut out = String::from_str(digit_text(n % 10));
    let mut rest: u64 = n / 10;
    while rest > 0
        invariant
            rest > 0 ==> decimal(n as nat) == decimal(rest as nat) + out@,
            rest == 0 ==> decimal(n as nat) == out@,
        decreases rest,
    {
        let ghost before = out@;
        let d: u64 = rest % 10;
        out = String::from_str(digit_text(d)).concat(out.as_str());
        proof {
            assert(out@ == seq![digit_char(d as nat)] + before);
            if rest >= 10 {
                assert(decimal(rest as nat) == decimal((rest / 10) as nat).push(
                    digit_char(d as nat),
                ));
                assert(decimal((rest / 10) as nat).push(digit_char(d as nat)) + before
                    =~= decimal((rest / 10) as nat) + out@);
            } else {
                assert(decimal(rest as nat) + before =~= out@);
            }
        }
        rest = rest / 10;
    }
    out
}

/// Writes an integer as its decimal numeral, with a minus sign where it is
/// negative.
pub fn format_signed(n: i64) -> (r: String)
    ensures
        r@ == signed_decimal(n as int),
{
    if n < 0 {
        let magnitude: u64 = (-(n as i128)) as u64;
        let digits = format_unsigned(magnitude);
        proof {
            reveal_strlit("-");
            assert("-"@ =~= seq!['-']);
        }
        String::from_str("-").concat(digits.as_str())
    } else {
        format_unsigned(n as u64)
    }
}

/// Writes a value of any shape in the standard JSON text form, by
/// `serde_json::to_string`. Whether the JSON library succeeds is left to it;
/// the text that comes back is the value's JSON text.
#[verifier::external_body]
fn json_text(value: &serde_json::Value) -> (r: Result<String, serde_json::Error>)
    ensures
        r matches Ok(text) ==> text@ == json_text_of(*value),
{
    serde_json::to_string(value)
}

/// What coercion returns for a value that is no scalar, given what the JSON
/// library made of it: its text where there is one, else the anomaly.
pub fn text_of_other(written: Result<String, serde_json::Error>) -> (r: Result<
    String,
    CoercionAnomaly,
>)
    ensures
        match written {
            Ok(text) => r == Ok::<String, CoercionAnomaly>(text),
            Err(cause) => r == Err::<String, CoercionAnomaly>(CoercionAnomaly { cause }),
        },
{
    match written {
        Ok(text) => Ok(text),
        Err(cause) => Err(CoercionAnomaly { cause }),
    }
}

/// The canonical text of a field value. A boolean gives `true` or `false`, an
/// integer its exact decimal numeral, any other number the decimal text it
/// holds, a string itself. A value that is no scalar is written as JSON
/// text; only there can the coercion fail.
pub fn stringify_json_value(field: &JsonScalar) -> (r: Result<String, CoercionAnomaly>)
    ensures
        !(field is Other) ==> r is Ok,
        r matches Ok(text) ==> text@ == canonical_text(*field),
{
    match field {
        JsonScalar::Bool(b) => {
            if *b {
                Ok(String::from_str("true"))
            } else {
                Ok(String::from_str("false"))
            }
        },
        JsonScalar::Number(n) => match n {
            JsonNumber::PosInt(u) => Ok(format_unsigned(*u)),
            JsonNumber::NegInt(i) => Ok(format_signed(*i)),
            JsonNumber::Decimal(text) => Ok(text.clone()),
        },
        JsonScalar::String(s) => Ok(s.clone()),
        JsonScalar::Other(value) => text_of_other(json_text(value)),
    }
}

} // verus!
