//! The desktop viewer side: the messages the viewer daemon sends, where its
//! socket and shared framebuffer live, and turning a shared RGB565
//! framebuffer into RGBA for display.
use vstd::prelude::*;
use vstd::arithmetic::div_mod::lemma_fundamental_div_mod_converse;
use crate::text::{decimal, push_decimal, push_text};
use crate::display::{encode_color, RgbColor, TransferFormat};

verus! {

/// Version of the viewer protocol.
pub const PROTOCOL_VERSION: u32 = 1;

/// The pixel formats a shared framebuffer can have.
#[derive(Clone, Copy, Debug, PartialEq, Eq, Structural)]
pub enum PixelFormat {
    Rgb565,
}

/// A message from the viewer daemon to a viewer.
#[derive(Clone, Debug, PartialEq, Eq)]
pub enum ServerMessage {
    Hello { version: u32 },
    SessionStart {
        width: u32,
        height: u32,
        stride: u32,
        pixel_format: PixelFormat,
        shm_path: String,
    },
    FrameReady { width: u32, height: u32, stride: u32, generation: u64, full_frame: bool },
    Disconnected,
    Shutdown,
}

/// The directory of the viewer's socket and framebuffer for user `uid`.
pub open spec fn runtime_dir_text(uid: u32) -> Seq<char> {
    seq!['/', 'r', 'u', 'n', '/', 'u', 's', 'e', 'r', '/'] + decimal(uid as nat) + seq![
        '/',
        'g',
        'u',
        'd',
        '-',
        'v',
        'i',
        'e',
        'w',
        'e',
        'r',
    ]
}

/// `/run/user/<uid>/gud-viewer`.
pub fn default_runtime_dir(uid: u32) -> (r: String)
    ensures
        r@ == runtime_dir_text(uid),
{
    let mut s = String::new();
    proof {
        reveal_strlit("/run/user/");
        reveal_strlit("/gud-viewer");
    }
    push_text(&mut s, "/run/user/");
    push_decimal(&mut s, uid as u64);
    push_text(&mut s, "/gud-viewer");
    assert(s@ =~= runtime_dir_text(uid));
    s
}

/// `/run/user/<uid>/gud-viewer/control.sock`.
pub fn default_socket_path(uid: u32) -> (r: String)
    ensures
        r@ == runtime_dir_text(uid) + seq![
            '/',
            'c',
            'o',
            'n',
            't',
            'r',
            'o',
            'l',
            '.',
            's',
            'o',
            'c',
            'k',
        ],
{
    let mut s = default_runtime_dir(uid);
    proof {
        reveal_strlit("/control.sock");
    }
    push_text(&mut s, "/control.sock");
    s
}

/// `/run/user/<uid>/gud-viewer/framebuffer.bin`.
pub fn default_framebuffer_path(uid: u32) -> (r: String)
    ensures
        r@ == runtime_dir_text(uid) + seq![
            '/',
            'f',
            'r',
            'a',
            'm',
            'e',
            'b',
            'u',
            'f',
            'f',
            'e',
            'r',
            '.',
            'b',
            'i',
            'n',
        ],
{
    let mut s = default_runtime_dir(uid);
    proof {
        reveal_strlit("/framebuffer.bin");
    }
    push_text(&mut s, "/framebuffer.bin");
    s
}

/// Why a shared framebuffer could not be converted.
#[derive(Clone, Copy, Debug, PartialEq, Eq, Structural)]
pub enum SharedFramebufferError {
    LengthOverflow,
    TooShort { got: usize, need: usize },
}

/// The RGB565 pixel stored little-endian in `lo`, `hi`.
pub open spec fn rgb565_pixel(lo: u8, hi: u8) -> u16 {
    (lo as u16) | ((hi as u16) << 8u16)
}

/// Channel `c` (red, green, blue, alpha) of an RGB565 pixel widened to eight
/// bits; the top bits are repeated into the new low bits, alpha is opaque.
pub open spec fn rgba_channel(pixel: u16, c: int) -> u8 {
    let red = ((pixel >> 11u16) & 0x1fu16) as u8;
    let green = ((pixel >> 5u16) & 0x3fu16) as u8;
    let blue = (pixel & 0x1fu16) as u8;
    if c == 0 {
        (red << 3u8) | (red >> 2u8)
    } else if c == 1 {
        (green << 2u8) | (green >> 4u8)
    } else if c == 2 {
        (blue << 3u8) | (blue >> 2u8)
    } else {
        0xffu8
    }
}

/// The RGBA image of a `width` x `height` RGB565 framebuffer whose rows
/// start every `stride` bytes: four bytes per pixel, rows packed.
pub open spec fn rgba_image(bytes: Seq<u8>, width: int, height: int, stride: int) -> Seq<u8> {
    Seq::new(
        (width * height * 4) as nat,
        |i: int|
            {
                let p = i / 4;
                let at = (p / width) * stride + 2 * (p % width);
                rgba_channel(rgb565_pixel(bytes[at], bytes[at + 1]), i % 4)
            },
    )
}

/// The entry of the RGBA image for channel `c` of pixel (`x`, `y`).
proof fn lemma_rgba_entry(bytes: Seq<u8>, width: int, height: int, stride: int, y: int, x: int, c: int)
    requires
        0 <= y < height,
        0 <= x < width,
        0 <= c < 4,
    ensures
        (y * width + x) * 4 + c < width * height * 4,
        rgba_image(bytes, width, height, stride)[(y * width + x) * 4 + c] == rgba_channel(
            rgb565_pixel(bytes[y * stride + 2 * x], bytes[y * stride + 2 * x + 1]),
            c,
        ),
{
    let p = y * width + x;
    let i = p * 4 + c;
    lemma_fundamental_div_mod_converse(i, 4, p, c);
    lemma_fundamental_div_mod_converse(p, width, y, x);
    assert(p * 4 + c < width * height * 4) by (nonlinear_arith)
        requires
            p == y * width + x,
            0 <= y < height,
            0 <= x < width,
            0 <= c < 4,
    ;
}

/// Converts a shared RGB565 framebuffer of `width` x `height` pixels, rows
/// `stride` bytes apart, to packed RGBA. The buffer must hold `stride *
/// height` bytes.
pub fn rgb565_to_rgba(width: u32, height: u32, stride: usize, bytes: &[u8]) -> (r: Result<
    Vec<u8>,
    SharedFramebufferError,
>)
    requires
        width * height * 4 <= usize::MAX,
        bytes@.len() >= stride * height && height > 0 ==> (height - 1) * stride + 2 * width
            <= bytes@.len(),
    ensures
        stride * height > usize::MAX ==> r == Err::<Vec<u8>, SharedFramebufferError>(
            SharedFramebufferError::LengthOverflow,
        ),
        stride * height <= usize::MAX && bytes@.len() < stride * height ==> r == Err::<
            Vec<u8>,
            SharedFramebufferError,
        >(
            SharedFramebufferError::TooShort {
                got: bytes@.len() as usize,
                need: (stride * height) as usize,
            },
        ),
        stride * height <= usize::MAX && bytes@.len() >= stride * height ==> (r matches Ok(rgba)
            && rgba@ == rgba_image(bytes@, width as int, height as int, stride as int)),
{
    let w = width as usize;
    let h = height as usize;
    let min_len = match stride.checked_mul(h) {
        Some(v) => v,
        None => return Err(SharedFramebufferError::LengthOverflow),
    };
    if bytes.len() < min_len {
        return Err(SharedFramebufferError::TooShort { got: bytes.len(), need: min_len });
    }
    let ghost image = rgba_image(bytes@, w as int, h as int, stride as int);
    let mut rgba: Vec<u8> = Vec::new();
    let mut y: usize = 0;
    while y < h
        invariant
            0 <= y <= h,
            w == width,
            h == height,
            w * h * 4 <= usize::MAX,
            h > 0 ==> (h - 1) * stride + 2 * w <= bytes@.len(),
            image == rgba_image(bytes@, w as int, h as int, stride as int),
            bytes@.len() <= usize::MAX,
            rgba@ == image.take((y * w * 4) as int),
        decreases h - y,
    {
        assert(y * stride + 2 * w <= (h - 1) * stride + 2 * w) by (nonlinear_arith)
            requires
                y < h,
                stride >= 0,
        ;
        assert((y + 1) * w * 4 <= w * h * 4) by (nonlinear_arith)
            requires
                y < h,
        ;
        let row = y * stride;
        let mut x: usize = 0;
        while x < w
            invariant
                0 <= y < h,
                0 <= x <= w,
                w == width,
                h == height,
                w * h * 4 <= usize::MAX,
                (y + 1) * w * 4 <= w * h * 4,
                row == y * stride,
                row + 2 * w <= bytes@.len(),
                bytes@.len() <= usize::MAX,
                image == rgba_image(bytes@, w as int, h as int, stride as int),
                rgba@ == image.take(((y * w + x) * 4) as int),
            decreases w - x,
        {
            let i = row + x * 2;
            let pixel: u16 = (bytes[i] as u16) | ((bytes[i + 1] as u16) << 8u16);
            let red = #[verifier::truncate] (((pixel >> 11u16) & 0x1fu16) as u8);
            let green = #[verifier::truncate] (((pixel >> 5u16) & 0x3fu16) as u8);
            let blue = #[verifier::truncate] ((pixel & 0x1fu16) as u8);
            proof {
                lemma_rgba_entry(bytes@, w as int, h as int, stride as int, y as int, x as int, 0);
                lemma_rgba_entry(bytes@, w as int, h as int, stride as int, y as int, x as int, 1);
                lemma_rgba_entry(bytes@, w as int, h as int, stride as int, y as int, x as int, 2);
                lemma_rgba_entry(bytes@, w as int, h as int, stride as int, y as int, x as int, 3);
                assert((y * w + x + 1) * 4 <= (y + 1) * w * 4) by (nonlinear_arith)
                    requires
                        x < w,
                ;
            }
            rgba.push((red << 3u8) | (red >> 2u8));
            rgba.push((green << 2u8) | (green >> 4u8));
            rgba.push((blue << 3u8) | (blue >> 2u8));
            rgba.push(0xffu8);
            assert(rgba@ =~= image.take(((y * w + x + 1) * 4) as int));
            x = x + 1;
        }
        assert((y * w + w) * 4 == (y + 1) * w * 4) by (nonlinear_arith);
        y = y + 1;
    }
    assert(h * w * 4 == w * h * 4) by (nonlinear_arith);
    assert(rgba@ =~= image);
    Ok(rgba)
}

/// A colour the presenter writes as RGB565 reaches the viewer with each
/// channel's kept bits intact: the top five bits of red and blue and the
/// top six of green come back unchanged, the widened channel repeats its
/// top bits in its low bits, and alpha is opaque.
pub proof fn lemma_rgb565_colours_survive_viewing(c: RgbColor)
    ensures
        ({
            let e = encode_color(TransferFormat::Rgb565, c);
            let px = rgb565_pixel(e[0], e[1]);
            &&& rgba_channel(px, 0) >> 3u8 == c.r >> 3u8
            &&& rgba_channel(px, 1) >> 2u8 == c.g >> 2u8
            &&& rgba_channel(px, 2) >> 3u8 == c.b >> 3u8
            &&& rgba_channel(px, 0) & 7u8 == c.r >> 5u8
            &&& rgba_channel(px, 1) & 3u8 == c.g >> 6u8
            &&& rgba_channel(px, 2) & 7u8 == c.b >> 5u8
            &&& rgba_channel(px, 3) == 0xffu8
        }),
{
    let r = c.r;
    let g = c.g;
    let b = c.b;
    let pixel = (((r as u16) >> 3u16) << 11u16) | (((g as u16) >> 2u16) << 5u16) | ((b as u16) >> 3u16);
    let lo = (pixel & 0xffu16) as u8;
    let hi = (pixel >> 8u16) as u8;
    assert(encode_color(TransferFormat::Rgb565, c) == seq![lo, hi]);
    let px = (lo as u16) | ((hi as u16) << 8u16);
    assert(px == pixel) by (bit_vector)
        requires
            lo == (pixel & 0xffu16) as u8,
            hi == (pixel >> 8u16) as u8,
            px == (lo as u16) | ((hi as u16) << 8u16),
    ;
    let red = ((px >> 11u16) & 0x1fu16) as u8;
    let green = ((px >> 5u16) & 0x3fu16) as u8;
    let blue = (px & 0x1fu16) as u8;
    assert(red == r >> 3u8 && green == g >> 2u8 && blue == b >> 3u8) by (bit_vector)
        requires
            px == (((r as u16) >> 3u16) << 11u16) | (((g as u16) >> 2u16) << 5u16) | ((b as u16) >> 3u16),
            red == ((px >> 11u16) & 0x1fu16) as u8,
            green == ((px >> 5u16) & 0x3fu16) as u8,
            blue == (px & 0x1fu16) as u8,
    ;
    let cr = (red << 3u8) | (red >> 2u8);
    let cg = (green << 2u8) | (green >> 4u8);
    let cb = (blue << 3u8) | (blue >> 2u8);
    assert(cr >> 3u8 == r >> 3u8 && cr & 7u8 == r >> 5u8) by (bit_vector)
        requires
            red == r >> 3u8,
            cr == (red << 3u8) | (red >> 2u8),
    ;
    assert(cg >> 2u8 == g >> 2u8 && cg & 3u8 == g >> 6u8) by (bit_vector)
        requires
            green == g >> 2u8,
            cg == (green << 2u8) | (green >> 4u8),
    ;
    assert(cb >> 3u8 == b >> 3u8 && cb & 7u8 == b >> 5u8) by (bit_vector)
        requires
            blue == b >> 3u8,
            cb == (blue << 3u8) | (blue >> 2u8),
    ;
}

} // verus!
