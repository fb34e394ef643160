//! The JSON reader and writer that the library relies on.
//!
//! Reading and writing JSON text is left to `serde_json`. Verus does not look
//! inside that crate, so each call stands behind a small wrapper whose
//! contract is taken on trust, and what a call returns is given a name that
//! the rest of the library states its own contracts over. Everything that is
//! decided after a call, from which members a record must have to how a
//! request is laid out, is verified against those names.

use vstd::prelude::*;

verus! {

/// The error of the JSON reader and writer. Nothing is known of it but that
/// it is one.
#[verifier::external_type_specification]
#[verifier::external_body]
pub struct ExJsonError(serde_json::Error);

/// One member of a JSON object: its key, and the text of its value exactly as
/// it was written.
#[derive(Debug)]
pub struct Member {
    pub key: String,
    pub raw: String,
}

impl View for Member {
    type V = (Seq<char>, Seq<char>);

    open spec fn view(&self) -> (Seq<char>, Seq<char>) {
        (self.key@, self.raw@)
    }
}

/// The members of a list, each as its key and the text of its value.
pub open spec fn members_view(members: Seq<Member>) -> Seq<(Seq<char>, Seq<char>)> {
    Seq::new(members.len(), |i: int| members[i]@)
}

/// What a JSON text is at its top level. A string and a number that fits
/// `u64` come with their value; of anything else only the kind is kept.
#[derive(Debug)]
pub enum Scalar {
    Null,
    Bool(bool),
    /// A number, with its value where it is a non-negative integer that fits
    /// 64 bits.
    Number(Option<u64>),
    Text(String),
    Array,
    Object,
}

/// A [`Scalar`] with its text as a sequence of characters.
pub enum ScalarView {
    Null,
    Bool(bool),
    Number(Option<u64>),
    Text(Seq<char>),
    Array,
    Object,
}

impl View for Scalar {
    type V = ScalarView;

    open spec fn view(&self) -> ScalarView {
        match self {
            Scalar::Null => ScalarView::Null,
            Scalar::Bool(b) => ScalarView::Bool(*b),
            Scalar::Number(n) => ScalarView::Number(*n),
            Scalar::Text(s) => ScalarView::Text(s@),
            Scalar::Array => ScalarView::Array,
            Scalar::Object => ScalarView::Object,
        }
    }
}

/// The members of `text` read as one JSON object, ordered by key, or `None`
/// where `text` is not one JSON object: what `serde_json::from_str` gives at
/// the type of a sorted map from keys to raw values.
pub uninterp spec fn json_members(text: Seq<char>) -> Option<Seq<(Seq<char>, Seq<char>)>>;

/// The top level of `text` read as one JSON value, or `None` where `text` is
/// not one JSON value: what `serde_json::from_str` gives at the type
/// `serde_json::Value`.
pub uninterp spec fn json_scalar(text: Seq<char>) -> Option<ScalarView>;

/// The JSON string literal that stands for `text`, quotes included, or `None`
/// where the writer fails: what `serde_json::to_string` gives for a `str`.
pub uninterp spec fn json_quoted(text: Seq<char>) -> Option<Seq<char>>;

/// Reads `text` as one JSON object by `serde_json::from_str`, at the type
/// `BTreeMap<String, Box<RawValue>>`.
///
/// Trusted: the call succeeds exactly when [`json_members`] of the text is
/// present, and the members handed back are the ones it names, in the map's
/// order. Each member carries its key and, through `RawValue::get`, the text
/// of its value.
#[verifier::external_body]
pub(crate) fn parse_members(text: &str) -> (parsed: Result<Vec<Member>, serde_json::Error>)
    ensures
        match parsed {
            Ok(members) => json_members(text@) == Some(members_view(members@)),
            Err(_) => json_members(text@) is None,
        },
{
    let map = serde_json::from_str::<
        std::collections::BTreeMap<String, Box<serde_json::value::RawValue>>,
    >(text)?;
    Ok(map.into_iter().map(|(key, raw)| Member { key, raw: raw.get().to_owned() }).collect())
}

/// Reads `text` as one JSON value by `serde_json::from_str`, at the type
/// `serde_json::Value`, and keeps its top level.
///
/// Trusted: the call succeeds exactly when [`json_scalar`] of the text is
/// present, and the value handed back is the one it names. A number carries
/// what `Number::as_u64` gives for it.
#[verifier::external_body]
pub(crate) fn parse_scalar(text: &str) -> (parsed: Result<Scalar, serde_json::Error>)
    ensures
        match parsed {
            Ok(scalar) => json_scalar(text@) == Some(scalar@),
            Err(_) => json_scalar(text@) is None,
        },
{
    Ok(match serde_json::from_str::<serde_json::Value>(text)? {
        serde_json::Value::Null => Scalar::Null,
        serde_json::Value::Bool(b) => Scalar::Bool(b),
        serde_json::Value::Number(n) => Scalar::Number(n.as_u64()),
        serde_json::Value::String(s) => Scalar::Text(s),
        serde_json::Value::Array(_) => Scalar::Array,
        serde_json::Value::Object(_) => Scalar::Object,
    })
}

/// Writes `text` as a JSON string literal by `serde_json::to_string`.
///
/// Trusted: the call succeeds exactly when [`json_quoted`] of the text is
/// present, and the literal handed back is the one it names.
#[verifier::external_body]
pub(crate) fn quote(text: &str) -> (quoted: Result<String, serde_json::Error>)
    ensures
        match quoted {
            Ok(literal) => json_quoted(text@) == Some(literal@),
            Err(_) => json_quoted(text@) is None,
        },
{
    serde_json::to_string(text)
}

} // verus!
