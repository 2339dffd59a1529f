//! Byte buffers of the `bytes` crate.
//!
//! Every item in this file that stands without proof says of `bytes::Bytes`
//! and `bytes::BytesMut` what their documentation says, over the sequence of
//! bytes that a buffer holds.
use bytes::{Buf, Bytes, BytesMut};
use vstd::prelude::*;

verus! {

/// `bytes::Bytes`: a contiguous, immutable run of bytes.
#[verifier::external_type_specification]
#[verifier::external_body]
pub struct ExBytes(Bytes);

/// `bytes::BytesMut`: a contiguous run of bytes with a single owner.
#[verifier::external_type_specification]
#[verifier::external_body]
pub struct ExBytesMut(BytesMut);

/// The bytes that a `Bytes` holds.
pub uninterp spec fn content(b: Bytes) -> Seq<u8>;

/// The bytes that a `BytesMut` holds.
pub uninterp spec fn content_mut(b: BytesMut) -> Seq<u8>;

/// `Bytes::new` holds nothing.
#[verifier::external_body]
pub(crate) fn empty() -> (r: Bytes)
    ensures
        content(r) == Seq::<u8>::empty(),
{
    Bytes::new()
}

/// `Bytes::len` counts the bytes held.
pub assume_specification[ Bytes::len ](b: &Bytes) -> (r: usize)
    ensures
        r == content(*b).len(),
;

/// `Bytes::is_empty` tells whether no byte is held.
pub assume_specification[ Bytes::is_empty ](b: &Bytes) -> (r: bool)
    ensures
        r == (content(*b).len() == 0),
;

/// `Bytes::split_to` takes the first `at` bytes out; it panics where there
/// are fewer.
pub assume_specification[ Bytes::split_to ](b: &mut Bytes, at: usize) -> (r: Bytes)
    requires
        at <= content(*old(b)).len(),
    ensures
        content(r) == content(*old(b)).take(at as int),
        content(*final(b)) == content(*old(b)).skip(at as int),
;

/// `Buf::advance` on a `Bytes` drops the first `count` bytes; it panics where
/// there are fewer.
#[verifier::external_body]
pub(crate) fn advance(b: &mut Bytes, count: usize)
    requires
        count <= content(*old(b)).len(),
    ensures
        content(*final(b)) == content(*old(b)).skip(count as int),
{
    b.advance(count)
}

/// `Bytes::copy_from_slice` holds a copy of the slice.
pub assume_specification[ Bytes::copy_from_slice ](data: &[u8]) -> (r: Bytes)
    ensures
        content(r) == data@,
;

/// `BytesMut::zeroed` holds `len` zeros. It makes a vector of them, which
/// panics where they are more than a vector can hold.
pub assume_specification[ BytesMut::zeroed ](len: usize) -> (r: BytesMut)
    requires
        len <= isize::MAX,
    ensures
        content_mut(r) == Seq::new(len as nat, |i: int| 0u8),
;

/// `BytesMut::truncate` keeps the first `len` bytes, or all of them where
/// there are no more.
pub assume_specification[ BytesMut::truncate ](b: &mut BytesMut, len: usize)
    ensures
        content_mut(*final(b)) == if len <= content_mut(*old(b)).len() {
            content_mut(*old(b)).take(len as int)
        } else {
            content_mut(*old(b))
        },
;

/// `BytesMut::freeze` keeps the bytes.
pub assume_specification[ BytesMut::freeze ](b: BytesMut) -> (r: Bytes)
    ensures
        content(r) == content_mut(b),
;

} // verus!
