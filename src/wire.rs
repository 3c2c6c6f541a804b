//! The compact wire form, as postcard lays it out.
use vstd::prelude::*;

verus! {

#[verifier::external_type_specification]
#[verifier::external_body]
pub struct ExPostcardError(postcard::Error);

/// What postcard reads as a `u32` from the front of the bytes, or `None` where
/// it fails.
pub uninterp spec fn postcard_u32_value(b: Seq<u8>) -> Option<u32>;

/// Relies on `postcard::to_allocvec` for a `u32`: a varint, which for a value
/// under 128 is the one byte of that value.
#[verifier::external_body]
pub(crate) fn postcard_encode_u32(v: u32) -> (r: Result<Vec<u8>, postcard::Error>)
    ensures
        v < 128 ==> r is Ok && r->Ok_0@ == seq![v as u8],
{
    postcard::to_allocvec(&v)
}

/// Relies on `postcard::from_bytes` for a `u32`: it reads a varint from the
/// front of the bytes; empty bytes fail, and a first byte under 128 is the value.
#[verifier::external_body]
pub(crate) fn postcard_decode_u32(b: &[u8]) -> (r: Result<u32, postcard::Error>)
    ensures
        r is Ok <==> postcard_u32_value(b@) is Some,
        r is Ok ==> Some(r->Ok_0) == postcard_u32_value(b@),
        b@.len() == 0 ==> !(r is Ok),
        b@.len() > 0 && b@[0] < 128 ==> r is Ok && r->Ok_0 == b@[0] as u32,
{
    postcard::from_bytes::<u32>(b)
}

} // verus!
