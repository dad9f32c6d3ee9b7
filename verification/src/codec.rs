//! Trusted bindings to the YAML codec used to put plain values on disk.
//!
//! The codec itself is an external collaborator; this module only states, for
//! the concrete value types the crate encodes, that a produced document
//! parses back to the value it was made from.

use vstd::prelude::*;

verus! {

/// What serde_yaml::from_str::<i32> reads out of a YAML text: the parse
/// depends on the text alone.
pub uninterp spec fn yaml_parse_i32(s: Seq<char>) -> Option<i32>;

/// Relies on serde_yaml::from_str::<i32>: the parse is a function of the
/// text, succeeding exactly on the texts that stand for an i32.
#[verifier::external_body]
pub(crate) fn yaml_decode_i32(s: &str) -> (r: Result<i32, String>)
    ensures
        r matches Ok(v) ==> yaml_parse_i32(s@) == Some(v),
        r is Ok <==> yaml_parse_i32(s@) is Some,
{
    match serde_yaml::from_str::<i32>(s) {
        Ok(v) => Ok(v),
        Err(e) => Err(e.to_string()),
    }
}

/// Relies on serde_yaml::to_string::<i32>: a document it produces parses
/// back, through serde_yaml::from_str::<i32>, to the value it was made from,
/// and emitting a plain integer has no failure path.
#[verifier::external_body]
pub(crate) fn yaml_encode_i32(v: &i32) -> (r: Result<String, String>)
    ensures
        r is Ok,
        r matches Ok(s) ==> yaml_parse_i32(s@) == Some(*v),
{
    match serde_yaml::to_string(v) {
        Ok(s) => Ok(s),
        Err(e) => Err(e.to_string()),
    }
}

/// What serde_yaml::from_str::<(usize, String, u32)> reads out of a YAML
/// text: the parse depends on the text alone.
pub uninterp spec fn yaml_parse_car(s: Seq<char>) -> Option<(usize, Seq<char>, u32)>;

/// Relies on serde_yaml::from_str::<(usize, String, u32)>: the parse is a
/// function of the text, succeeding exactly on the texts that stand for such
/// a triple.
#[verifier::external_body]
pub(crate) fn yaml_decode_car(s: &str) -> (r: Result<(usize, String, u32), String>)
    ensures
        r matches Ok(t) ==> yaml_parse_car(s@) == Some((t.0, t.1@, t.2)),
        r is Ok <==> yaml_parse_car(s@) is Some,
{
    match serde_yaml::from_str::<(usize, String, u32)>(s) {
        Ok(t) => Ok(t),
        Err(e) => Err(e.to_string()),
    }
}

/// Relies on serde_yaml::to_string::<(usize, &String, u32)>: a document it
/// produces parses back, through serde_yaml::from_str, to the triple it was
/// made from, and emitting a tuple of integers and a string has no failure
/// path.
#[verifier::external_body]
pub(crate) fn yaml_encode_car(id: usize, name: &String, hp: u32) -> (r: Result<String, String>)
    ensures
        r is Ok,
        r matches Ok(s) ==> yaml_parse_car(s@) == Some((id, name@, hp)),
{
    match serde_yaml::to_string(&(id, name, hp)) {
        Ok(s) => Ok(s),
        Err(e) => Err(e.to_string()),
    }
}

/// What serde_yaml::from_str::<(String, String, i32)> reads out of a YAML
/// text: the parse depends on the text alone.
pub uninterp spec fn yaml_parse_user(s: Seq<char>) -> Option<(Seq<char>, Seq<char>, i32)>;

/// Relies on serde_yaml::from_str::<(String, String, i32)>: the parse is a
/// function of the text, succeeding exactly on the texts that stand for such
/// a triple.
#[verifier::external_body]
pub(crate) fn yaml_decode_user(s: &str) -> (r: Result<(String, String, i32), String>)
    ensures
        r matches Ok(t) ==> yaml_parse_user(s@) == Some((t.0@, t.1@, t.2)),
        r is Ok <==> yaml_parse_user(s@) is Some,
{
    match serde_yaml::from_str::<(String, String, i32)>(s) {
        Ok(t) => Ok(t),
        Err(e) => Err(e.to_string()),
    }
}

/// Relies on serde_yaml::to_string::<(&String, &String, i32)>: a document it
/// produces parses back, through serde_yaml::from_str, to the triple it was
/// made from, and emitting a tuple of strings and an integer has no failure
/// path.
#[verifier::external_body]
pub(crate) fn yaml_encode_user(id: &String, name: &String, age: i32) -> (r: Result<String, String>)
    ensures
        r is Ok,
        r matches Ok(s) ==> yaml_parse_user(s@) == Some((id@, name@, age)),
{
    match serde_yaml::to_string(&(id, name, age)) {
        Ok(s) => Ok(s),
        Err(e) => Err(e.to_string()),
    }
}

} // verus!
