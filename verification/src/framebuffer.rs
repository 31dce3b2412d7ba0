//! Placing a received rectangle into a framebuffer of a given pitch.
use vstd::prelude::*;
use vstd::arithmetic::div_mod::{lemma_fundamental_div_mod, lemma_fundamental_div_mod_converse};
use crate::gud::SetBuffer;

verus! {

/// Why a rectangle could not be copied into the framebuffer.
#[derive(Clone, Copy, Debug, PartialEq, Eq, Structural)]
pub enum CopyError {
    ZeroBytesPerPixel,
    EndRowOverflow,
    LineLengthOverflow,
    LineStartOverflow,
    PayloadLengthOverflow,
    PayloadTooShort { got: usize, expected: usize },
    RowLengthOverflow,
    PitchTooSmall { pitch: usize, x: u32, width: u32, bpp: usize },
    DestinationLengthOverflow,
    FramebufferTooShort { got: usize, need: usize, end_row: usize },
}

/// Whether the checks before a copy pass, and if not, the first that fails.
pub open spec fn copy_outcome(
    info: SetBuffer,
    buf_len: nat,
    fb_len: nat,
    fb_pitch: usize,
    bpp: usize,
) -> Result<(), CopyError> {
    let end_y = info.y + info.height;
    let line_len = info.width * bpp;
    let line_start = info.x * bpp;
    let expected = line_len * info.height;
    if bpp == 0 {
        Err(CopyError::ZeroBytesPerPixel)
    } else if end_y > usize::MAX {
        Err(CopyError::EndRowOverflow)
    } else if line_len > usize::MAX {
        Err(CopyError::LineLengthOverflow)
    } else if line_start > usize::MAX {
        Err(CopyError::LineStartOverflow)
    } else if expected > usize::MAX {
        Err(CopyError::PayloadLengthOverflow)
    } else if buf_len < expected {
        Err(CopyError::PayloadTooShort { got: buf_len as usize, expected: expected as usize })
    } else if line_start + line_len > usize::MAX {
        Err(CopyError::RowLengthOverflow)
    } else if fb_pitch < line_start + line_len {
        Err(CopyError::PitchTooSmall { pitch: fb_pitch, x: info.x, width: info.width, bpp })
    } else if end_y * fb_pitch > usize::MAX {
        Err(CopyError::DestinationLengthOverflow)
    } else if fb_len < end_y * fb_pitch {
        Err(
            CopyError::FramebufferTooShort {
                got: fb_len as usize,
                need: (end_y * fb_pitch) as usize,
                end_row: end_y as usize,
            },
        )
    } else {
        Ok(())
    }
}

/// Whether framebuffer byte `i` lies in the first `rows` rows of the
/// rectangle, or in the first `cols` bytes of the row after them.
pub open spec fn in_copied_part(
    i: int,
    y: int,
    pitch: int,
    line_start: int,
    line_len: int,
    rows: int,
    cols: int,
) -> bool {
    &&& pitch > 0
    &&& line_start <= i % pitch < line_start + line_len
    &&& y <= i / pitch
    &&& (i / pitch < y + rows || (i / pitch == y + rows && i % pitch < line_start + cols))
}

/// The framebuffer once the first `rows` rows of the rectangle, and `cols`
/// bytes of the next, are copied from `buf`.
pub open spec fn copy_progress(
    buf: Seq<u8>,
    fb: Seq<u8>,
    y: int,
    pitch: int,
    line_start: int,
    line_len: int,
    rows: int,
    cols: int,
) -> Seq<u8> {
    Seq::new(
        fb.len(),
        |i: int|
            if in_copied_part(i, y, pitch, line_start, line_len, rows, cols) {
                buf[(i / pitch - y) * line_len + (i % pitch - line_start)]
            } else {
                fb[i]
            },
    )
}

/// The framebuffer after the rectangle of `info` is copied from `buf`, a
/// packed run of rows of `width * bpp` bytes: row `r` of the rectangle lands
/// at row `y + r` of the framebuffer, `x * bpp` bytes in; every other byte
/// is kept.
pub open spec fn framebuffer_after_copy(
    info: SetBuffer,
    buf: Seq<u8>,
    fb: Seq<u8>,
    fb_pitch: usize,
    bpp: usize,
) -> Seq<u8> {
    copy_progress(
        buf,
        fb,
        info.y as int,
        fb_pitch as int,
        info.x * bpp,
        info.width * bpp,
        info.height as int,
        0,
    )
}

/// Writing byte `line_start + k` of row `row` extends the copied part by that byte.
proof fn lemma_copy_step(
    buf: Seq<u8>,
    fb: Seq<u8>,
    y: int,
    pitch: int,
    line_start: int,
    line_len: int,
    rows: int,
    k: int,
    j: int,
)
    requires
        pitch > 0,
        y >= 0,
        rows >= 0,
        0 <= line_start,
        0 <= k < line_len,
        line_start + line_len <= pitch,
        j == (y + rows) * pitch + line_start + k,
        0 <= j < fb.len(),
    ensures
        copy_progress(buf, fb, y, pitch, line_start, line_len, rows, k).update(
            j,
            buf[rows * line_len + k],
        ) == copy_progress(buf, fb, y, pitch, line_start, line_len, rows, k + 1),
{
    let before = copy_progress(buf, fb, y, pitch, line_start, line_len, rows, k);
    let after = copy_progress(buf, fb, y, pitch, line_start, line_len, rows, k + 1);
    lemma_fundamental_div_mod_converse(j, pitch, y + rows, line_start + k);
    assert forall|i: int| 0 <= i < fb.len() implies #[trigger] before.update(j, buf[rows * line_len + k])[i]
        == after[i] by {
        if i != j {
            lemma_fundamental_div_mod(i, pitch);
            if i / pitch == y + rows && i % pitch == line_start + k {
                assert(i == pitch * (y + rows) + (line_start + k));
                assert(pitch * (y + rows) == (y + rows) * pitch) by (nonlinear_arith);
                assert(false);
            }
        }
    }
    assert(before.update(j, buf[rows * line_len + k]) =~= after);
}

/// Finishing a row of the rectangle is the same as starting the next.
proof fn lemma_copy_next_row(
    buf: Seq<u8>,
    fb: Seq<u8>,
    y: int,
    pitch: int,
    line_start: int,
    line_len: int,
    rows: int,
)
    ensures
        copy_progress(buf, fb, y, pitch, line_start, line_len, rows, line_len) == copy_progress(
            buf,
            fb,
            y,
            pitch,
            line_start,
            line_len,
            rows + 1,
            0,
        ),
{
    assert(copy_progress(buf, fb, y, pitch, line_start, line_len, rows, line_len)
        =~= copy_progress(buf, fb, y, pitch, line_start, line_len, rows + 1, 0));
}

/// Copies the rectangle, row by row, once the checks have passed.
fn copy_rows(
    info: &SetBuffer,
    buf: &[u8],
    fb: &mut [u8],
    fb_pitch: usize,
    bpp: usize,
)
    requires
        copy_outcome(*info, buf@.len(), old(fb)@.len(), fb_pitch, bpp) is Ok,
    ensures
        final(fb)@ == framebuffer_after_copy(*info, buf@, old(fb)@, fb_pitch, bpp),
{
    let ghost orig = fb@;
    let line_len = info.width as usize * bpp;
    let line_start = info.x as usize * bpp;
    let end_y = info.y as usize + info.height as usize;
    let ghost y0 = info.y as int;
    let ghost h = info.height as int;
    assert(line_len * info.height >= 0) by (nonlinear_arith)
        requires
            line_len >= 0,
    ;
    let mut y = info.y as usize;
    let mut buf_pos: usize = 0;
    assert(fb@ =~= copy_progress(buf@, orig, y0, fb_pitch as int, line_start as int, line_len as int, 0, 0));
    while y < end_y
        invariant
            y0 <= y <= end_y,
            y0 == info.y,
            h == info.height,
            line_len * h <= usize::MAX,
            end_y == y0 + h,
            line_len == info.width * bpp,
            line_start == info.x * bpp,
            line_start + line_len <= fb_pitch,
            end_y * fb_pitch <= fb@.len(),
            end_y * fb_pitch <= usize::MAX,
            line_len * h <= buf@.len(),
            buf_pos == (y - y0) * line_len,
            fb@.len() == orig.len(),
            fb@ == copy_progress(buf@, orig, y0, fb_pitch as int, line_start as int, line_len as int, y - y0, 0),
        decreases end_y - y,
    {
        assert((y + 1) * fb_pitch <= end_y * fb_pitch) by (nonlinear_arith)
            requires
                y + 1 <= end_y,
                fb_pitch >= 0,
        ;
        assert((y + 1) * fb_pitch == y * fb_pitch + fb_pitch) by (nonlinear_arith);
        assert(buf_pos + line_len <= line_len * h) by (nonlinear_arith)
            requires
                buf_pos == (y - y0) * line_len,
                y + 1 <= y0 + h,
                line_len >= 0,
        ;
        let fb_start = y * fb_pitch + line_start;
        let mut k: usize = 0;
        while k < line_len
            invariant
                y0 <= y < end_y,
                y0 == info.y,
                end_y == y0 + h,
                y * fb_pitch + fb_pitch <= usize::MAX,
                buf_pos + line_len <= usize::MAX,
                line_start + line_len <= fb_pitch,
                fb_start == y * fb_pitch + line_start,
                y * fb_pitch + fb_pitch <= fb@.len(),
                buf_pos == (y - y0) * line_len,
                buf_pos + line_len <= buf@.len(),
                0 <= k <= line_len,
                fb@.len() == orig.len(),
                fb@ == copy_progress(buf@, orig, y0, fb_pitch as int, line_start as int, line_len as int, y - y0, k as int),
            decreases line_len - k,
        {
            proof {
                lemma_copy_step(
                    buf@,
                    orig,
                    y0,
                    fb_pitch as int,
                    line_start as int,
                    line_len as int,
                    y - y0,
                    k as int,
                    (fb_start + k) as int,
                );
            }
            fb[fb_start + k] = buf[buf_pos + k];
            k = k + 1;
        }
        proof {
            lemma_copy_next_row(
                buf@,
                orig,
                y0,
                fb_pitch as int,
                line_start as int,
                line_len as int,
                y - y0,
            );
            assert((y + 1 - y0) * line_len == (y - y0) * line_len + line_len) by (nonlinear_arith);
        }
        buf_pos = buf_pos + line_len;
        y = y + 1;
    }
}

/// Checks that the rectangle of `info` fits both the payload and the
/// framebuffer, then copies it: row `r` of the packed payload goes to row
/// `y + r` of the framebuffer, `x * bpp` bytes into it.
pub fn copy_rect_to_framebuffer(
    info: &SetBuffer,
    buf: &[u8],
    fb: &mut [u8],
    fb_pitch: usize,
    bpp: usize,
) -> (r: Result<(), CopyError>)
    ensures
        r == copy_outcome(*info, buf@.len(), old(fb)@.len(), fb_pitch, bpp),
        r is Ok ==> final(fb)@ == framebuffer_after_copy(*info, buf@, old(fb)@, fb_pitch, bpp),
        r is Err ==> final(fb)@ == old(fb)@,
{
    if bpp == 0 {
        return Err(CopyError::ZeroBytesPerPixel);
    }
    let end_y = match (info.y as usize).checked_add(info.height as usize) {
        Some(v) => v,
        None => return Err(CopyError::EndRowOverflow),
    };
    let line_len = match (info.width as usize).checked_mul(bpp) {
        Some(v) => v,
        None => return Err(CopyError::LineLengthOverflow),
    };
    let line_start = match (info.x as usize).checked_mul(bpp) {
        Some(v) => v,
        None => return Err(CopyError::LineStartOverflow),
    };
    let expected_len = match line_len.checked_mul(info.height as usize) {
        Some(v) => v,
        None => return Err(CopyError::PayloadLengthOverflow),
    };
    if buf.len() < expected_len {
        return Err(CopyError::PayloadTooShort { got: buf.len(), expected: expected_len });
    }
    let row_end = match line_start.checked_add(line_len) {
        Some(v) => v,
        None => return Err(CopyError::RowLengthOverflow),
    };
    if fb_pitch < row_end {
        return Err(
            CopyError::PitchTooSmall { pitch: fb_pitch, x: info.x, width: info.width, bpp },
        );
    }
    let required_fb_len = match end_y.checked_mul(fb_pitch) {
        Some(v) => v,
        None => return Err(CopyError::DestinationLengthOverflow),
    };
    if fb.len() < required_fb_len {
        return Err(
            CopyError::FramebufferTooShort {
                got: fb.len(),
                need: required_fb_len,
                end_row: end_y,
            },
        );
    }
    copy_rows(info, buf, fb, fb_pitch, bpp);
    Ok(())
}

/// A copied rectangle, byte by byte: byte `j` of row `r` of the request
/// lands at row `y + r`, `x * bpp + j` bytes into that row, taken from
/// `r * width * bpp + j` in the buffer; every byte outside the rectangle's
/// rows and columns keeps its value.
pub proof fn lemma_copy_places_rows(info: SetBuffer, buf: Seq<u8>, fb: Seq<u8>, fb_pitch: usize, bpp: usize)
    requires
        fb_pitch > 0,
        (info.x + info.width) * bpp <= fb_pitch,
    ensures
        framebuffer_after_copy(info, buf, fb, fb_pitch, bpp).len() == fb.len(),
        forall|r: int, j: int|
            #![trigger framebuffer_after_copy(info, buf, fb, fb_pitch, bpp)[(info.y + r) * fb_pitch + info.x * bpp + j]]
            0 <= r < info.height && 0 <= j < info.width * bpp && (info.y + r) * fb_pitch + info.x * bpp
                + j < fb.len() ==> framebuffer_after_copy(info, buf, fb, fb_pitch, bpp)[(info.y + r)
                * fb_pitch + info.x * bpp + j] == buf[r * (info.width * bpp) + j],
        forall|i: int|
            #![trigger framebuffer_after_copy(info, buf, fb, fb_pitch, bpp)[i]]
            0 <= i < fb.len() && !(info.y <= i / (fb_pitch as int) < info.y + info.height && info.x * bpp
                <= i % (fb_pitch as int) < (info.x + info.width) * bpp) ==> framebuffer_after_copy(
                info,
                buf,
                fb,
                fb_pitch,
                bpp,
            )[i] == fb[i],
{
    let out = framebuffer_after_copy(info, buf, fb, fb_pitch, bpp);
    let line_start = info.x * bpp;
    let line_len = info.width * bpp;
    assert((info.x + info.width) * bpp == line_start + line_len) by (nonlinear_arith)
        requires
            line_start == info.x * bpp,
            line_len == info.width * bpp,
    ;
    assert forall|r: int, j: int|
        0 <= r < info.height && 0 <= j < info.width * bpp && (info.y + r) * fb_pitch + info.x * bpp + j
            < fb.len() implies #[trigger] out[(info.y + r) * fb_pitch + info.x * bpp + j] == buf[r * (
        info.width * bpp) + j] by {
        let i = (info.y + r) * fb_pitch + info.x * bpp + j;
        assert(0 <= line_start) by (nonlinear_arith)
            requires
                line_start == info.x * bpp,
        ;
        lemma_fundamental_div_mod_converse(i, fb_pitch as int, info.y + r, line_start + j);
    }
    assert forall|i: int|
        0 <= i < fb.len() && !(info.y <= i / (fb_pitch as int) < info.y + info.height && info.x * bpp
            <= i % (fb_pitch as int) < (info.x + info.width) * bpp) implies #[trigger] out[i] == fb[i] by {
    }
}

} // verus!
