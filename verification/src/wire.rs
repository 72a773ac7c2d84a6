//! The generic MessagePack value as this library sees it.
//!
//! Values are parsed and serialized by `rmp_serde` and held as `rmpv::Value`.
//! Verus sees such a value as opaque; what the library reads out of it is
//! named by the spec functions below, and every item of this file states,
//! without proof, how one function of those crates relates to these names.

use vstd::prelude::*;

verus! {

/// `rmpv::Value`, a MessagePack value of any kind, carried as it is.
#[verifier::external_type_specification]
#[verifier::external_body]
pub struct ExValue(rmpv::Value);

/// The error of `rmp_serde::from_slice`; nothing is read out of it.
#[verifier::external_type_specification]
#[verifier::external_body]
pub struct ExDecodeError(rmp_serde::decode::Error);

/// The error of `rmp_serde::to_vec`; nothing is read out of it.
#[verifier::external_type_specification]
#[verifier::external_body]
pub struct ExEncodeError(rmp_serde::encode::Error);

/// The elements of `v` if it is an array.
pub uninterp spec fn array_items(v: rmpv::Value) -> Option<Seq<rmpv::Value>>;

/// The number held by `v` if it is a non-negative integer.
pub uninterp spec fn unsigned(v: rmpv::Value) -> Option<u64>;

/// The characters of `v` if it is a string of valid UTF-8.
pub uninterp spec fn text(v: rmpv::Value) -> Option<Seq<char>>;

/// The value that the leading bytes of `bytes` parse to, if they parse.
pub uninterp spec fn parsed(bytes: Seq<u8>) -> Option<rmpv::Value>;

/// The bytes that `v` serializes to whenever serializing it succeeds.
pub uninterp spec fn packed(v: rmpv::Value) -> Seq<u8>;

/// `rmpv::Value::as_array` hands out the element vector of an array and
/// `None` for every other kind of value.
pub assume_specification[ rmpv::Value::as_array ](v: &rmpv::Value) -> (out: Option<
    &Vec<rmpv::Value>,
>)
    ensures
        match out {
            Some(items) => array_items(*v) == Some(items@),
            None => array_items(*v) is None,
        },
;

/// `rmpv::Value::as_u64` returns the number of a non-negative integer and
/// `None` for every other kind of value.
pub assume_specification[ rmpv::Value::as_u64 ](v: &rmpv::Value) -> (out: Option<u64>)
    ensures
        out == unsigned(*v),
;

/// `rmpv::Value::as_str` returns the text of a string of valid UTF-8 and
/// `None` for every other kind of value.
pub assume_specification<'a>[ rmpv::Value::as_str ](v: &'a rmpv::Value) -> (out: Option<&'a str>)
    ensures
        match out {
            Some(s) => text(*v) == Some(s@),
            None => text(*v) is None,
        },
;

/// `rmp_serde::from_slice` parses one MessagePack value off the front of
/// `bytes`; whether it succeeds and what it yields depends on `bytes` alone.
#[verifier::external_body]
pub(crate) fn read_value(bytes: &[u8]) -> (out: Result<rmpv::Value, rmp_serde::decode::Error>)
    ensures
        match out {
            Ok(v) => parsed(bytes@) == Some(v),
            Err(_) => parsed(bytes@) is None,
        },
{
    rmp_serde::from_slice(bytes)
}

/// `rmpv::Value::from` of a `u64` makes the non-negative integer of that
/// number, which is neither an array nor a string.
pub assume_specification[ <rmpv::Value as From<u64>>::from ](n: u64) -> (out: rmpv::Value)
    ensures
        unsigned(out) == Some(n),
        array_items(out) is None,
        text(out) is None,
;

/// `rmpv::Value::from` of a `String` makes the string of its characters,
/// which is neither an array nor a number.
pub assume_specification[ <rmpv::Value as From<String>>::from ](s: String) -> (out: rmpv::Value)
    ensures
        text(out) == Some(s@),
        array_items(out) is None,
        unsigned(out) is None,
;

/// `rmpv::Value::from` of a vector of values makes the array of these
/// elements in their order, which is neither a number nor a string.
pub assume_specification[ <rmpv::Value as From<Vec<rmpv::Value>>>::from ](
    items: Vec<rmpv::Value>,
) -> (out: rmpv::Value)
    ensures
        array_items(out) == Some(items@),
        unsigned(out) is None,
        text(out) is None,
;

/// `rmp_serde::to_vec` serializes a value into a fresh byte vector. It can
/// fail, also for want of memory, so nothing is said of when it succeeds;
/// the bytes of a success depend on the value alone.
#[verifier::external_body]
pub(crate) fn write_value(v: &rmpv::Value) -> (out: Result<Vec<u8>, rmp_serde::encode::Error>)
    ensures
        out matches Ok(bytes) ==> bytes@ == packed(*v),
{
    rmp_serde::to_vec(v)
}

} // verus!
