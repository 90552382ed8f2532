//! Structured inspection metadata and the ownership filter: a tree of plain
//! values mirroring a parsed JSON document, a verified lookup along the fixed
//! label path, and the trusted boundary to the JSON parser.

use vstd::prelude::*;

use crate::errors::CoreError;
use crate::textops::str_eq;

verus! {

/// One node of an inspection document: a tree of plain values. Numbers carry
/// no information the filter reads, so they collapse into `Scalar`.
#[derive(Debug, PartialEq, Eq)]
pub enum Meta {
    /// An explicit null.
    Null,
    /// A boolean.
    Truth(bool),
    /// A number; the filter never reads its value.
    Scalar,
    /// A text value.
    Text(String),
    /// An array of nodes.
    List(Vec<Meta>),
    /// An object: its fields in order, each a key with a node.
    Object(Vec<(String, Meta)>),
}

/// The first field named `key`, if the object has one.
pub open spec fn field_lookup(fields: Seq<(String, Meta)>, key: Seq<char>) -> Option<Meta>
    decreases fields.len(),
{
    if fields.len() == 0 {
        None
    } else if fields[0].0@ == key {
        Some(fields[0].1)
    } else {
        field_lookup(fields.skip(1), key)
    }
}

/// The field named `key` of `m`, when `m` is an object that has one.
pub open spec fn spec_field(m: Meta, key: Seq<char>) -> Option<Meta> {
    match m {
        Meta::Object(fields) => field_lookup(fields@, key),
        _ => None,
    }
}

/// The first element of `m`, when `m` is a nonempty array.
pub open spec fn spec_elem0(m: Meta) -> Option<Meta> {
    match m {
        Meta::List(items) => if items@.len() > 0 {
            Some(items@[0])
        } else {
            None
        },
        _ => None,
    }
}

/// Whether the document says this tool owns the image: the root is an array
/// whose first element carries the fixed marker label, text-valued and equal
/// to the fixed tool name. Any other shape means "not ours", never a fault.
pub open spec fn spec_owned(m: Meta) -> bool {
    match spec_elem0(m) {
        Some(e) => match spec_field(e, "Config"@) {
            Some(c) => match spec_field(c, "Labels"@) {
                Some(l) => match spec_field(l, "tool"@) {
                    Some(Meta::Text(s)) => s@ == "spade-docker"@,
                    _ => false,
                },
                _ => false,
            },
            _ => false,
        },
        None => false,
    }
}

/// The first field named `key`, if the object has one.
fn obj_get<'a>(fields: &'a Vec<(String, Meta)>, key: &str) -> (r: Option<&'a Meta>)
    ensures
        r matches Some(v) ==> field_lookup(fields@, key@) == Some(*v),
        r is None ==> field_lookup(fields@, key@) is None,
{
    proof {
        assert(fields@.skip(0) =~= fields@);
    }
    let mut i: usize = 0;
    while i < fields.len()
        invariant
            i <= fields@.len(),
            field_lookup(fields@, key@) == field_lookup(fields@.skip(i as int), key@),
        decreases fields@.len() - i,
    {
        proof {
            assert(fields@.skip(i as int)[0] == fields@[i as int]);
        }
        if str_eq(fields[i].0.as_str(), key) {
            return Some(&fields[i].1);
        }
        proof {
            assert(fields@.skip(i as int).skip(1) =~= fields@.skip(i + 1));
        }
        i += 1;
    }
    proof {
        assert(fields@.skip(fields@.len() as int).len() == 0);
    }
    None
}

/// Decides whether the inspected image carries the fixed ownership label.
/// Absence of any key on the path, a wrong type or a wrong value all mean
/// "not ours"; none of them is an error.
pub fn is_owned(m: &Meta) -> (r: bool)
    ensures
        r == spec_owned(*m),
{
    match m {
        Meta::List(items) => {
            if items.len() == 0 {
                return false;
            }
            match &items[0] {
                Meta::Object(fields) => match obj_get(fields, "Config") {
                    Some(Meta::Object(conf)) => match obj_get(conf, "Labels") {
                        Some(Meta::Object(labels)) => match obj_get(labels, "tool") {
                            Some(Meta::Text(s)) => str_eq(s.as_str(), "spade-docker"),
                            _ => false,
                        },
                        _ => false,
                    },
                    _ => false,
                },
                _ => false,
            }
        },
        _ => false,
    }
}

/// The metadata tree that the JSON parser yields on this text, or `None`
/// where the text is not a JSON document. A fixed function of the text alone.
pub uninterp spec fn parsed_meta(s: Seq<char>) -> Option<Meta>;

/// Relies on serde_json::Value being a plain tree of the six JSON shapes;
/// this declaration only lets values of it pass through the conversion below.
#[verifier::external_type_specification]
#[verifier::external_body]
pub struct ExValue(serde_json::Value);

/// Relies on serde_json::Value exposing its six variants to `match`; each arm
/// moves the parsed data into the library's own tree, numbers collapsing into
/// `Scalar`.
#[verifier::external_body]
fn value_to_meta(v: serde_json::Value) -> Meta {
    match v {
        serde_json::Value::Null => Meta::Null,
        serde_json::Value::Bool(b) => Meta::Truth(b),
        serde_json::Value::Number(_) => Meta::Scalar,
        serde_json::Value::String(s) => Meta::Text(s),
        serde_json::Value::Array(items) => Meta::List(
            items.into_iter().map(value_to_meta).collect(),
        ),
        serde_json::Value::Object(fields) => Meta::Object(
            fields.into_iter().map(|f| (f.0, value_to_meta(f.1))).collect(),
        ),
    }
}

/// Relies on serde_json::from_str: deterministic parsing of one JSON document
/// from text, `Err` exactly on text that is not one.
#[verifier::external_body]
fn parse_metadata(s: &str) -> (r: Option<Meta>)
    ensures
        r == parsed_meta(s@),
{
    match serde_json::from_str::<serde_json::Value>(s) {
        Ok(v) => Some(value_to_meta(v)),
        Err(_) => None,
    }
}

/// Decodes one inspection document. Text that is no JSON document fails with
/// the encoding error; any well-formed document, whatever its shape, is
/// returned for the filter to judge.
pub fn inspect_decode(s: &str) -> (r: Result<Meta, CoreError>)
    ensures
        parsed_meta(s@) matches Some(m) ==> r matches Ok(rm) && rm == m,
        parsed_meta(s@) is None ==> r == Err::<Meta, CoreError>(CoreError::Encoding),
{
    match parse_metadata(s) {
        Some(m) => Ok(m),
        None => Err(CoreError::Encoding),
    }
}

} // verus!
