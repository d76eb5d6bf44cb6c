//! The `bytes` crate's buffers as the library sees them: each is a sequence of bytes.

use bytes::{Bytes, BytesMut};
use vstd::prelude::*;

verus! {

#[verifier::external_type_specification]
#[verifier::external_body]
pub struct ExBytes(bytes::Bytes);

#[verifier::external_type_specification]
#[verifier::external_body]
pub struct ExBytesMut(bytes::BytesMut);

/// The bytes that a `Bytes` handle holds.
pub uninterp spec fn bytes_view(b: Bytes) -> Seq<u8>;

/// The bytes that a `BytesMut` buffer holds (its length, not its capacity).
pub uninterp spec fn bytes_mut_view(b: BytesMut) -> Seq<u8>;

/// `<Bytes as Clone>::clone`: a second handle to the same bytes.
pub assume_specification[ <Bytes as Clone>::clone ](b: &Bytes) -> (r: Bytes)
    ensures
        bytes_view(r) == bytes_view(*b),
;

/// `Bytes::len`: the number of bytes held.
#[verifier::external_body]
pub fn bytes_len(b: &Bytes) -> (n: usize)
    ensures
        n == bytes_view(*b).len(),
{
    b.len()
}

/// `<Bytes as AsRef<[u8]>>::as_ref`: the held bytes as a slice.
#[verifier::external_body]
pub fn bytes_as_slice(b: &Bytes) -> (s: &[u8])
    ensures
        s@ == bytes_view(*b),
{
    b.as_ref()
}

/// `BytesMut::with_capacity`: an empty buffer (the capacity is not modelled).
#[verifier::external_body]
pub fn bytes_mut_with_capacity(capacity: usize) -> (b: BytesMut)
    ensures
        bytes_mut_view(b) == Seq::<u8>::empty(),
{
    BytesMut::with_capacity(capacity)
}

/// `BytesMut::is_empty`: whether no byte is held.
#[verifier::external_body]
pub fn bytes_mut_is_empty(b: &BytesMut) -> (r: bool)
    ensures
        r == (bytes_mut_view(*b).len() == 0),
{
    b.is_empty()
}

} // verus!
