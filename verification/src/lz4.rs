//! LZ4 block decompression of compressed payloads (`lz4` crate).
use vstd::prelude::*;
use bytes::BytesMut;
use crate::buffer::bytes_mut_view;

verus! {

/// An I/O error value of the standard library, as the `lz4` crate reports
/// its failures.
#[verifier::external_type_specification]
#[verifier::external_body]
pub struct ExIoError(std::io::Error);

/// The largest uncompressed size LZ4 accepts.
pub const LZ4_MAX_INPUT_SIZE: i32 = 0x7E00_0000;

/// What decoding the LZ4 block `src` into room for `capacity` bytes yields:
/// the decoded bytes, or `None` where the block is invalid or decodes to more
/// than `capacity` bytes.
pub uninterp spec fn lz4_block_decode(src: Seq<u8>, capacity: int) -> Option<Seq<u8>>;

/// `lz4::block::decompress_to_buffer(src, Some(uncompressed_size), dst)`.
/// A negative size, a size above `LZ4_MAX_INPUT_SIZE` or a size beyond the
/// bytes `dst` holds fail before anything is written. Otherwise the block is
/// decoded with `uncompressed_size` bytes of room at the front of `dst`: on
/// success the count of decoded bytes is returned and they are the first bytes
/// of `dst`; on failure an error. The length of `dst` never changes. What the
/// decoder leaves in `dst` past the decoded bytes, or anywhere after a failed
/// decode, is not stated.
#[verifier::external_body]
pub(crate) fn lz4_decompress_to_buffer(
    src: &[u8],
    uncompressed_size: i32,
    dst: &mut BytesMut,
) -> (r: Result<usize, std::io::Error>)
    ensures
        bytes_mut_view(*final(dst)).len() == bytes_mut_view(*old(dst)).len(),
        (uncompressed_size < 0 || uncompressed_size > LZ4_MAX_INPUT_SIZE || uncompressed_size
            > bytes_mut_view(*old(dst)).len()) ==> r is Err && bytes_mut_view(*final(dst))
            == bytes_mut_view(*old(dst)),
        (0 <= uncompressed_size <= LZ4_MAX_INPUT_SIZE && uncompressed_size <= bytes_mut_view(
            *old(dst),
        ).len()) ==> match lz4_block_decode(src@, uncompressed_size as int) {
            Some(out) => r == Ok::<usize, std::io::Error>(out.len() as usize) && out.len()
                <= uncompressed_size && bytes_mut_view(*final(dst)).take(out.len() as int) == out,
            None => r is Err,
        },
{
    lz4::block::decompress_to_buffer(src, Some(uncompressed_size), &mut dst[..])
}

} // verus!
