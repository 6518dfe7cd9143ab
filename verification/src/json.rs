//! The members of a JSON text, as far as requests need them.
use vstd::prelude::*;
use vstd::string::*;

verus! {

/// `serde_json::Value`: a JSON value as it was parsed.
#[verifier::external_type_specification]
#[verifier::external_body]
pub struct ExValue(serde_json::Value);

/// A JSON value without what is inside lists and objects.
#[derive(Debug)]
pub enum Scalar {
    Null,
    Bool(bool),
    /// The number as a `u64`, where it is one, and as the bits of a double.
    Number { unsigned: Option<u64>, double: Option<u64> },
    Text(String),
    /// A list or an object.
    Compound,
}

/// A scalar with its text as a character sequence.
pub enum ScalarView {
    Null,
    Bool(bool),
    Number { unsigned: Option<u64>, double: Option<u64> },
    Text(Seq<char>),
    Compound,
}

impl View for Scalar {
    type V = ScalarView;

    open spec fn view(&self) -> ScalarView {
        match *self {
            Scalar::Null => ScalarView::Null,
            Scalar::Bool(b) => ScalarView::Bool(b),
            Scalar::Number { unsigned, double } => ScalarView::Number { unsigned, double },
            Scalar::Text(s) => ScalarView::Text(s@),
            Scalar::Compound => ScalarView::Compound,
        }
    }
}

/// The members of a JSON value; one that is no object has none.
pub uninterp spec fn members(value: serde_json::Value) -> Map<Seq<char>, ScalarView>;

/// What `serde_json::from_str` makes of a text: the members of the value in it, or how it
/// words its refusal.
pub uninterp spec fn json_of(text: Seq<char>) -> Result<Map<Seq<char>, ScalarView>, Seq<char>>;

/// Parses a text, by `serde_json::from_str`. Which texts are JSON, and what their members
/// are, is not stated.
#[verifier::external_body]
pub(crate) fn parse(text: &str) -> (r: Result<serde_json::Value, String>)
    ensures
        match r {
            Ok(value) => json_of(text@) == Ok::<_, Seq<char>>(members(value)),
            Err(reason) => json_of(text@) == Err::<Map<Seq<char>, ScalarView>, _>(reason@),
        },
{
    serde_json::from_str::<serde_json::Value>(text).map_err(|e| e.to_string())
}

/// The member of that name, by indexing a `serde_json::Value` with a text: null where there is
/// no such member or the value is no object.
#[verifier::external_body]
pub(crate) fn member(value: &serde_json::Value, key: &str) -> (r: Scalar)
    ensures
        r@ == member_of(members(*value), key@),
{
    match &value[key] {
        serde_json::Value::Null => Scalar::Null,
        serde_json::Value::Bool(b) => Scalar::Bool(*b),
        serde_json::Value::Number(n) => Scalar::Number {
            unsigned: n.as_u64(),
            double: n.as_f64().map(|x| x.to_bits()),
        },
        serde_json::Value::String(s) => Scalar::Text(s.clone()),
        serde_json::Value::Array(_) => Scalar::Compound,
        serde_json::Value::Object(_) => Scalar::Compound,
    }
}

/// The member of that name, or null.
pub open spec fn member_of(all: Map<Seq<char>, ScalarView>, key: Seq<char>) -> ScalarView {
    if all.contains_key(key) {
        all[key]
    } else {
        ScalarView::Null
    }
}

} // verus!
