//! Parsing JSON text through `serde_json`, and converting the outside value
//! tree into the crate's own [`Json`] model.
//!
//! Which payload texts parse is decided by `serde_json`; everything after
//! the parse is specified and verified over the returned [`Json`] value.

use crate::json::Json;
use vstd::prelude::*;

verus! {

#[verifier::external_type_specification]
#[verifier::external_body]
pub struct ExValue(serde_json::Value);

#[verifier::external_type_specification]
#[verifier::external_body]
pub struct ExError(serde_json::Error);

#[verifier::external_type_specification]
#[verifier::external_body]
pub struct ExNumber(serde_json::Number);

/// One level of an outside JSON value, with the nested values still opaque.
enum ValueNode {
    Null,
    Bool(bool),
    Num(serde_json::Number),
    Text(String),
    List(Vec<serde_json::Value>),
    Entries(Vec<(String, serde_json::Value)>),
}

/// Why a payload text did not yield a [`Json`] document.
#[derive(Debug)]
pub enum ParseError {
    /// The text is not well-formed JSON; carries the parser's own error.
    Syntax(serde_json::Error),
    /// The document nests more deeply than [`MAX_JSON_DEPTH`].
    TooDeep,
}

/// Nesting bound of the conversion below. The parser that produces the
/// outside values enforces a far smaller recursion limit of its own, so a
/// successfully parsed document never reaches this bound.
pub const MAX_JSON_DEPTH: usize = 512;

/// Whether a text is a well-formed JSON document, as the outside parser
/// decides it. The outcome depends on the characters alone; this name
/// stands for it, and the parsing wrapper below couples the two.
pub uninterp spec fn json_parses(s: Seq<char>) -> bool;

/// Relies on `serde_json::from_str`: parses one JSON document from text,
/// succeeding exactly on well-formed input — the outcome the name
/// [`json_parses`] stands for — and rejecting the rest with the parser's
/// error.
#[verifier::external_body]
fn parse_text(s: &str) -> (r: Result<serde_json::Value, serde_json::Error>)
    ensures
        (r is Ok) == json_parses(s@),
{
    serde_json::from_str::<serde_json::Value>(s)
}

/// Relies on the variants of `serde_json::Value`: tells them apart, moving
/// each payload out unchanged; object entries come in the map's own order.
#[verifier::external_body]
fn take_node(v: serde_json::Value) -> ValueNode {
    match v {
        serde_json::Value::Null => ValueNode::Null,
        serde_json::Value::Bool(b) => ValueNode::Bool(b),
        serde_json::Value::Number(n) => ValueNode::Num(n),
        serde_json::Value::String(s) => ValueNode::Text(s),
        serde_json::Value::Array(items) => ValueNode::List(items),
        serde_json::Value::Object(m) => ValueNode::Entries(m.into_iter().collect()),
    }
}

/// Relies on `serde_json::Number::as_u64`: the value when the number is an
/// integer in `u64` range, `None` otherwise.
#[verifier::external_body]
fn number_as_u64(n: &serde_json::Number) -> Option<u64> {
    n.as_u64()
}

/// Relies on `serde_json::Number::as_i64`: the value when the number is an
/// integer in `i64` range, `None` otherwise.
#[verifier::external_body]
fn number_as_i64(n: &serde_json::Number) -> Option<i64> {
    n.as_i64()
}

/// Rebuilds an outside value as an owned [`Json`] document, level by level.
#[verifier::loop_isolation(false)]
fn node_to_json(v: serde_json::Value, depth: usize) -> Option<Json>
    decreases depth,
{
    if depth == 0 {
        return None;
    }
    match take_node(v) {
        ValueNode::Null => Some(Json::Null),
        ValueNode::Bool(b) => Some(Json::Bool(b)),
        ValueNode::Num(n) => match number_as_u64(&n) {
            Some(u) => Some(Json::UInt(u)),
            None => match number_as_i64(&n) {
                Some(i) => Some(Json::Int(i)),
                None => Some(Json::NumOther),
            },
        },
        ValueNode::Text(s) => Some(Json::Str(s)),
        ValueNode::List(items) => {
            let mut rest = items;
            let mut out: Vec<Json> = Vec::new();
            while rest.len() > 0
                decreases rest.len(),
            {
                let item = rest.remove(0);
                match node_to_json(item, depth - 1) {
                    Some(j) => out.push(j),
                    None => {
                        return None;
                    },
                }
            }
            Some(Json::Arr(out))
        },
        ValueNode::Entries(entries) => {
            let mut rest = entries;
            let mut out: Vec<(String, Json)> = Vec::new();
            while rest.len() > 0
                decreases rest.len(),
            {
                let entry = rest.remove(0);
                match node_to_json(entry.1, depth - 1) {
                    Some(j) => out.push((entry.0, j)),
                    None => {
                        return None;
                    },
                }
            }
            Some(Json::Obj(out))
        },
    }
}

/// Parses one message payload into the crate's own JSON model.
///
/// A syntax rejection comes exactly on texts that are not well-formed
/// JSON; which document a well-formed text yields is decided by the
/// outside parser, and every later step of the streaming logic is
/// specified over the returned document alone. The depth rejection only
/// guards the conversion's own bound, which the outside parser's far
/// smaller recursion limit keeps out of reach.
pub fn parse_document(s: &str) -> (r: Result<Json, ParseError>)
    ensures
        (r matches Err(ParseError::Syntax(_))) <==> !json_parses(s@),
        r is Ok ==> json_parses(s@),
{
    match parse_text(s) {
        Ok(v) => match node_to_json(v, MAX_JSON_DEPTH) {
            Some(j) => Ok(j),
            None => Err(ParseError::TooDeep),
        },
        Err(e) => Err(ParseError::Syntax(e)),
    }
}

} // verus!
