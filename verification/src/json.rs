//! JSON documents, read through `serde_json`.
//!
//! The gateway never looks inside a document itself. What a document holds
//! is named by the spec functions without a body below, and the functions of
//! this module that call `serde_json` are trusted to return what those names
//! say.

use vstd::prelude::*;
use crate::model::slice_text;

verus! {

/// `serde_json::Value`, a JSON document or a part of one. Opaque here: its
/// content is reached through the functions of this module alone.
#[verifier::external_type_specification]
#[verifier::external_body]
pub struct ExValue(serde_json::Value);

/// The document that `serde_json` reads from the bytes of a body, if they
/// are a JSON text.
pub uninterp spec fn json_parsed(bytes: Seq<u8>) -> Option<serde_json::Value>;

/// The member that `v` holds under `key`, if `v` is an object with such a
/// member.
pub uninterp spec fn json_member(v: serde_json::Value, key: Seq<char>) -> Option<serde_json::Value>;

/// The text of `v`, if `v` is a string.
pub uninterp spec fn json_text(v: serde_json::Value) -> Option<Seq<char>>;

/// The number `v` as a `u64`, if `v` is a number written as an integer
/// that a `u64` holds.
pub uninterp spec fn json_unsigned(v: serde_json::Value) -> Option<u64>;

/// The elements of `v`, if `v` is an array.
pub uninterp spec fn json_elements(v: serde_json::Value) -> Option<Seq<serde_json::Value>>;

/// The text that `v` holds under `key`.
pub open spec fn member_text(v: serde_json::Value, key: Seq<char>) -> Option<Seq<char>> {
    match json_member(v, key) {
        Some(m) => json_text(m),
        None => None,
    }
}

/// The text that the member `outer` of `v` holds under `inner`.
pub open spec fn nested_text(v: serde_json::Value, outer: Seq<char>, inner: Seq<char>) -> Option<
    Seq<char>,
> {
    match json_member(v, outer) {
        Some(m) => member_text(m, inner),
        None => None,
    }
}

/// The number that the member `outer` of `v` holds under `inner`.
pub open spec fn nested_unsigned(
    v: serde_json::Value,
    outer: Seq<char>,
    inner: Seq<char>,
) -> Option<u64> {
    match json_member(v, outer) {
        Some(m) => match json_member(m, inner) {
            Some(n) => json_unsigned(n),
            None => None,
        },
        None => None,
    }
}

/// Calls `serde_json::from_slice` for a `serde_json::Value`. Trusted: the
/// result is the document named by [`json_parsed`], and `None` where
/// `serde_json` reports an error.
#[verifier::external_body]
pub(crate) fn parse(bytes: &[u8]) -> (doc: Option<serde_json::Value>)
    ensures
        doc == json_parsed(bytes@),
{
    serde_json::from_slice(bytes).ok()
}

/// Calls `serde_json::Value::get` with a string key. Trusted: the result is
/// the member named by [`json_member`].
#[verifier::external_body]
pub(crate) fn member<'a>(v: &'a serde_json::Value, key: &str) -> (m: Option<&'a serde_json::Value>)
    ensures
        match m {
            Some(x) => json_member(*v, key@) == Some(*x),
            None => json_member(*v, key@) is None,
        },
{
    v.get(key)
}

/// Calls `serde_json::Value::as_str`. Trusted: the result is the text named
/// by [`json_text`].
#[verifier::external_body]
pub(crate) fn text<'a>(v: &'a serde_json::Value) -> (t: Option<&'a str>)
    ensures
        slice_text(t) == json_text(*v),
{
    v.as_str()
}

/// Calls `serde_json::Value::as_u64`. Trusted: the result is the number
/// named by [`json_unsigned`].
#[verifier::external_body]
pub(crate) fn unsigned(v: &serde_json::Value) -> (n: Option<u64>)
    ensures
        n == json_unsigned(*v),
{
    v.as_u64()
}

/// Calls `serde_json::Value::as_array`. Trusted: the result holds the
/// elements named by [`json_elements`], in order.
#[verifier::external_body]
pub(crate) fn elements<'a>(v: &'a serde_json::Value) -> (a: Option<&'a Vec<serde_json::Value>>)
    ensures
        match a {
            Some(x) => json_elements(*v) == Some(x@),
            None => json_elements(*v) is None,
        },
{
    v.as_array()
}

/// The text that `v` holds under `key`.
pub(crate) fn text_at<'a>(v: &'a serde_json::Value, key: &str) -> (t: Option<&'a str>)
    ensures
        slice_text(t) == member_text(*v, key@),
{
    match member(v, key) {
        Some(m) => text(m),
        None => None,
    }
}

/// The text that the member `outer` of `v` holds under `inner`.
pub(crate) fn text_in<'a>(v: &'a serde_json::Value, outer: &str, inner: &str) -> (t: Option<&'a str>)
    ensures
        slice_text(t) == nested_text(*v, outer@, inner@),
{
    match member(v, outer) {
        Some(m) => text_at(m, inner),
        None => None,
    }
}

/// The number that the member `outer` of `v` holds under `inner`.
pub(crate) fn unsigned_in(v: &serde_json::Value, outer: &str, inner: &str) -> (n: Option<u64>)
    ensures
        n == nested_unsigned(*v, outer@, inner@),
{
    match member(v, outer) {
        Some(m) => match member(m, inner) {
            Some(x) => unsigned(x),
            None => None,
        },
        None => None,
    }
}

} // verus!
