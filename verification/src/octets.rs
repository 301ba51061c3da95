//! What the verifier is told about `bytes::Bytes`, and about cloning a
//! `HashSet`.
//!
//! State keys, state values, service keys, invocation arguments and raw
//! journal entries are `Bytes`. The interpreter never looks inside one: it
//! moves them, clones them, and turns the textual keys of built-in services
//! into bytes. The contracts speak of the byte sequence a `Bytes` holds.
use bytes::Bytes;
use std::collections::HashSet;
use vstd::prelude::*;

verus! {

#[verifier::external_type_specification]
#[verifier::external_body]
pub struct ExBytes(Bytes);

/// The bytes that a `Bytes` value holds, in order.
pub uninterp spec fn bytes_contents(b: Bytes) -> Seq<u8>;

/// `Bytes::clone` hands out a second handle to the same bytes.
pub assume_specification[ <Bytes as Clone>::clone ](b: &Bytes) -> (r: Bytes)
    ensures
        bytes_contents(r) == bytes_contents(*b),
;

/// `Bytes::from(String)` takes over the string's buffer: the result holds the
/// UTF-8 encoding of the text.
#[verifier::external_body]
pub(crate) fn bytes_from_string(s: String) -> (b: Bytes)
    ensures
        bytes_contents(b) == vstd::utf8::encode_utf8(s@),
{
    Bytes::from(s)
}

/// `HashSet::clone` yields a set with the same elements.
#[verifier::external_body]
pub(crate) fn clone_index_set(set: &HashSet<u32>) -> (r: HashSet<u32>)
    ensures
        r@ == set@,
{
    set.clone()
}

} // verus!
