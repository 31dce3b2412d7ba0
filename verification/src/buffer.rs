//! The growable byte buffers payloads are received into (`bytes::BytesMut`),
//! seen through the bytes they hold.
use vstd::prelude::*;
use bytes::BytesMut;

verus! {

/// A growable byte buffer of the `bytes` crate.
#[verifier::external_type_specification]
#[verifier::external_body]
pub struct ExBytesMut(bytes::BytesMut);

/// The bytes a buffer holds, first to last.
pub uninterp spec fn bytes_mut_view(b: BytesMut) -> Seq<u8>;

/// `BytesMut::new`: an empty buffer.
#[verifier::external_body]
pub(crate) fn bytes_mut_new() -> (r: BytesMut)
    ensures
        bytes_mut_view(r) == Seq::<u8>::empty(),
{
    BytesMut::new()
}

/// `BytesMut::len`: the number of bytes held.
#[verifier::external_body]
pub(crate) fn bytes_mut_len(b: &BytesMut) -> (r: usize)
    ensures
        r == bytes_mut_view(*b).len(),
{
    b.len()
}

/// `BytesMut::clear`: drops every byte.
#[verifier::external_body]
pub(crate) fn bytes_mut_clear(b: &mut BytesMut)
    ensures
        bytes_mut_view(*final(b)) == Seq::<u8>::empty(),
{
    b.clear()
}

/// `BytesMut::resize`: shortens to `new_len` bytes, or appends copies of
/// `value` up to `new_len` bytes.
#[verifier::external_body]
pub(crate) fn bytes_mut_resize(b: &mut BytesMut, new_len: usize, value: u8)
    requires
        new_len <= isize::MAX,
    ensures
        bytes_mut_view(*final(b)) == (if new_len <= bytes_mut_view(*old(b)).len() {
            bytes_mut_view(*old(b)).take(new_len as int)
        } else {
            bytes_mut_view(*old(b)) + Seq::new(
                (new_len - bytes_mut_view(*old(b)).len()) as nat,
                |i: int| value,
            )
        }),
{
    b.resize(new_len, value)
}

/// `BytesMut::truncate`: keeps the first `len` bytes; no effect when fewer
/// are held.
#[verifier::external_body]
pub(crate) fn bytes_mut_truncate(b: &mut BytesMut, len: usize)
    ensures
        bytes_mut_view(*final(b)) == (if len <= bytes_mut_view(*old(b)).len() {
            bytes_mut_view(*old(b)).take(len as int)
        } else {
            bytes_mut_view(*old(b))
        }),
{
    b.truncate(len)
}

/// `BytesMut::extend_from_slice`: appends the bytes of `extend`.
#[verifier::external_body]
pub(crate) fn bytes_mut_extend_from_slice(b: &mut BytesMut, extend: &[u8])
    requires
        bytes_mut_view(*old(b)).len() + extend@.len() <= isize::MAX,
    ensures
        bytes_mut_view(*final(b)) == bytes_mut_view(*old(b)) + extend@,
{
    b.extend_from_slice(extend)
}

/// `<BytesMut as AsRef<[u8]>>::as_ref`: the bytes held, as a slice.
#[verifier::external_body]
pub(crate) fn bytes_mut_as_slice(b: &BytesMut) -> (r: &[u8])
    ensures
        r@ == bytes_mut_view(*b),
{
    b.as_ref()
}

} // verus!
