//! The viewer daemon: the modes it advertises, turning RGB888 frames into
//! the shared RGB565 framebuffer, and what it tells its viewers as host
//! sessions come and go.
use vstd::prelude::*;
use crate::config::{bounded_value, keyword_form, matches_keyword, parse_bounded};
use crate::display::{derive_mode_from_native, derived_mode, encode_color, RgbColor, TransferFormat};
use crate::gud::{
    DisplayMode, SetBuffer, GUD_DISPLAY_MODE_FLAG_PREFERRED, GUD_PIXEL_FORMAT_RGB565,
    GUD_PIXEL_FORMAT_RGB888,
};
use crate::protocol::ActiveScanoutState;
use crate::viewer::{
    lemma_rgb565_colours_survive_viewing, rgb565_pixel, rgba_channel, default_framebuffer_path, default_socket_path, PixelFormat, ServerMessage,
    SharedFramebufferError, PROTOCOL_VERSION,
};

verus! {

/// The panel's own timing.
pub open spec fn native_mode() -> DisplayMode {
    DisplayMode {
        clock: 174_359,
        hdisplay: 1080,
        hsync_start: 1192,
        hsync_end: 1208,
        htotal: 1244,
        vdisplay: 2280,
        vsync_start: 2316,
        vsync_end: 2324,
        vtotal: 2336,
        flags: GUD_DISPLAY_MODE_FLAG_PREFERRED,
    }
}

/// The panel's own timing.
pub fn default_native_mode() -> (r: DisplayMode)
    ensures
        r == native_mode(),
{
    DisplayMode {
        clock: 174_359,
        hdisplay: 1080,
        hsync_start: 1192,
        hsync_end: 1208,
        htotal: 1244,
        vdisplay: 2280,
        vsync_start: 2316,
        vsync_end: 2324,
        vtotal: 2336,
        flags: GUD_DISPLAY_MODE_FLAG_PREFERRED,
    }
}

/// The smaller portrait sizes advertised besides the native mode.
pub open spec fn portrait_fallbacks() -> Seq<(u16, u16)> {
    seq![(900u16, 1900u16), (810u16, 1710u16), (720u16, 1520u16)]
}

/// The modes the viewer daemon advertises: the native mode, then a timing
/// derived from it for each portrait fallback size.
pub fn build_advertised_modes() -> (r: Vec<DisplayMode>)
    ensures
        r@ == seq![native_mode()] + portrait_fallbacks().map_values(
            |size: (u16, u16)| derived_mode(native_mode(), size.0, size.1),
        ),
{
    let native = default_native_mode();
    let mut modes: Vec<DisplayMode> = Vec::new();
    modes.push(native);
    modes.push(derive_mode_from_native(&native, 900, 1900));
    modes.push(derive_mode_from_native(&native, 810, 1710));
    modes.push(derive_mode_from_native(&native, 720, 1520));
    assert(modes@ =~= seq![native_mode()] + portrait_fallbacks().map_values(
        |size: (u16, u16)| derived_mode(native_mode(), size.0, size.1),
    ));
    modes
}

/// The formats the viewer daemon receives frames in.
#[derive(Clone, Copy, Debug, PartialEq, Eq, Structural)]
pub enum ViewerTransferFormat {
    Rgb565,
    Rgb888,
}

/// The viewer format a setting names: RGB565 when unset or unknown, else
/// "rgb565" or "rgb888", around white space and in any case.
pub open spec fn viewer_format_value(raw: Option<Seq<char>>) -> ViewerTransferFormat {
    match raw {
        Some(text) => if keyword_form(text) == "rgb888"@ {
            ViewerTransferFormat::Rgb888
        } else {
            ViewerTransferFormat::Rgb565
        },
        None => ViewerTransferFormat::Rgb565,
    }
}

impl ViewerTransferFormat {
    /// The viewer format a setting names.
    pub fn from_value(raw: Option<&str>) -> (r: ViewerTransferFormat)
        ensures
            r == viewer_format_value(
                match raw {
                    Some(t) => Some(t@),
                    None => None,
                },
            ),
    {
        match raw {
            Some(text) => if matches_keyword(text, "rgb888") {
                ViewerTransferFormat::Rgb888
            } else {
                ViewerTransferFormat::Rgb565
            },
            None => ViewerTransferFormat::Rgb565,
        }
    }

    /// The GUD pixel format code.
    pub fn gud_pixel_format(self) -> (r: u8)
        ensures
            r == match self {
                ViewerTransferFormat::Rgb565 => GUD_PIXEL_FORMAT_RGB565,
                ViewerTransferFormat::Rgb888 => GUD_PIXEL_FORMAT_RGB888,
            },
    {
        match self {
            ViewerTransferFormat::Rgb565 => GUD_PIXEL_FORMAT_RGB565,
            ViewerTransferFormat::Rgb888 => GUD_PIXEL_FORMAT_RGB888,
        }
    }

    /// Bytes per pixel.
    pub fn bytes_per_pixel(self) -> (r: usize)
        ensures
            r == match self {
                ViewerTransferFormat::Rgb565 => 2usize,
                ViewerTransferFormat::Rgb888 => 3usize,
            },
    {
        match self {
            ViewerTransferFormat::Rgb565 => 2,
            ViewerTransferFormat::Rgb888 => 3,
        }
    }
}

/// A number setting: its value when it reads as one, else `default`.
pub fn u32_setting_or(raw: Option<&str>, default: u32) -> (r: u32)
    ensures
        r == match raw {
            Some(text) => match bounded_value(text@, u32::MAX as nat) {
                Some(v) => v as u32,
                None => default,
            },
            None => default,
        },
{
    match raw {
        Some(text) => {
            assert(text@.subrange(0, text@.len() as int) =~= text@);
            match parse_bounded(text, 0, text.unicode_len(), u32::MAX as u64) {
                Some(v) => v as u32,
                None => default,
            }
        },
        None => default,
    }
}

/// Where the control socket and the shared framebuffer live.
#[derive(Clone, Debug, PartialEq, Eq)]
pub struct RuntimePaths {
    pub socket_path: String,
    pub framebuffer_path: String,
}

/// The runtime paths: the ones given, else the defaults for user `uid`.
pub fn runtime_paths(uid: u32, socket_path: Option<&str>, framebuffer_path: Option<&str>) -> (r:
    RuntimePaths)
    ensures
        match socket_path {
            Some(p) => r.socket_path@ == p@,
            None => r.socket_path@ == default_socket_path_text(uid),
        },
        match framebuffer_path {
            Some(p) => r.framebuffer_path@ == p@,
            None => r.framebuffer_path@ == default_framebuffer_path_text(uid),
        },
{
    proof {
        reveal_strlit("/control.sock");
        reveal_strlit("/framebuffer.bin");
    }
    let socket_path = match socket_path {
        Some(p) => p.to_owned(),
        None => default_socket_path(uid),
    };
    let framebuffer_path = match framebuffer_path {
        Some(p) => p.to_owned(),
        None => default_framebuffer_path(uid),
    };
    RuntimePaths { socket_path, framebuffer_path }
}

/// The default control socket path of user `uid`.
pub open spec fn default_socket_path_text(uid: u32) -> Seq<char> {
    crate::viewer::runtime_dir_text(uid) + "/control.sock"@
}

/// The default shared framebuffer path of user `uid`.
pub open spec fn default_framebuffer_path_text(uid: u32) -> Seq<char> {
    crate::viewer::runtime_dir_text(uid) + "/framebuffer.bin"@
}

/// Why an RGB888 frame could not be converted.
#[derive(Clone, Copy, Debug, PartialEq, Eq, Structural)]
pub enum Rgb888Error {
    LengthOverflow,
    TooShort { got: usize, expected: usize },
}

/// The RGB565 bytes of row `row` of a `width`-pixel-wide RGB888 frame.
pub open spec fn rgb565_row(buf: Seq<u8>, width: int, row: int) -> Seq<u8> {
    Seq::new(
        (width * 2) as nat,
        |i: int|
            {
                let p = (row * width + i / 2) * 3;
                encode_color(
                    TransferFormat::Rgb565,
                    RgbColor { r: buf[p], g: buf[p + 1], b: buf[p + 2] },
                )[i % 2]
            },
    )
}

/// A frame pixel written by the daemon reaches a viewer with its colour
/// kept: pixel `k` of a converted row, read back by the viewer, has the
/// top five bits of the source pixel's red and blue and the top six of its
/// green, and is opaque.
pub proof fn lemma_converted_pixels_reach_viewers(buf: Seq<u8>, width: int, row: int, k: int)
    requires
        0 <= k < width,
    ensures
        ({
            let out = rgb565_row(buf, width, row);
            let p = (row * width + k) * 3;
            let px = rgb565_pixel(out[2 * k], out[2 * k + 1]);
            &&& rgba_channel(px, 0) >> 3u8 == buf[p] >> 3u8
            &&& rgba_channel(px, 1) >> 2u8 == buf[p + 1] >> 2u8
            &&& rgba_channel(px, 2) >> 3u8 == buf[p + 2] >> 3u8
            &&& rgba_channel(px, 3) == 0xffu8
        }),
{
    let out = rgb565_row(buf, width, row);
    let p = (row * width + k) * 3;
    let c = RgbColor { r: buf[p], g: buf[p + 1], b: buf[p + 2] };
    assert((2 * k) / 2 == k && (2 * k) % 2 == 0);
    assert((2 * k + 1) / 2 == k && (2 * k + 1) % 2 == 1);
    assert(out[2 * k] == encode_color(TransferFormat::Rgb565, c)[0]);
    assert(out[2 * k + 1] == encode_color(TransferFormat::Rgb565, c)[1]);
    lemma_rgb565_colours_survive_viewing(c);
}

/// Where row `row` of the rectangle starts in the framebuffer.
pub open spec fn rect_row_start(info: SetBuffer, pitch: int, row: int) -> int {
    (info.y + row) * pitch + info.x * 2
}

/// The framebuffer after the first `rows` rows of the rectangle were
/// written, each over the bytes where it starts.
pub open spec fn rgb565_rows_written(
    orig: Seq<u8>,
    info: SetBuffer,
    pitch: int,
    buf: Seq<u8>,
    rows: int,
) -> Seq<u8>
    decreases rows,
{
    if rows <= 0 {
        orig
    } else {
        let before = rgb565_rows_written(orig, info, pitch, buf, rows - 1);
        let start = rect_row_start(info, pitch, rows - 1);
        before.take(start) + rgb565_row(buf, info.width as int, rows - 1) + before.skip(
            start + info.width * 2,
        )
    }
}

/// Converts the RGB888 pixels of a SET_BUFFER rectangle into the RGB565
/// framebuffer, row by row. The frame must hold all of the rectangle's
/// pixels; the framebuffer must hold every row it is written to.
pub fn copy_rgb888_to_rgb565_framebuffer(
    info: &SetBuffer,
    buf: &[u8],
    fb: &mut [u8],
    fb_pitch: usize,
) -> (r: Result<(), Rgb888Error>)
    requires
        info.height > 0 ==> rect_row_start(*info, fb_pitch as int, info.height - 1) + info.width * 2
            <= old(fb)@.len(),
        info.y + info.height <= usize::MAX,
    ensures
        info.width * info.height * 3 > usize::MAX ==> r == Err::<(), Rgb888Error>(
            Rgb888Error::LengthOverflow,
        ) && final(fb)@ == old(fb)@,
        info.width * info.height * 3 <= usize::MAX && buf@.len() < info.width * info.height * 3
            ==> r == Err::<(), Rgb888Error>(
            Rgb888Error::TooShort {
                got: buf@.len() as usize,
                expected: (info.width * info.height * 3) as usize,
            },
        ) && final(fb)@ == old(fb)@,
        info.width * info.height * 3 <= usize::MAX && buf@.len() >= info.width * info.height * 3
            ==> r is Ok && final(fb)@ == rgb565_rows_written(
            old(fb)@,
            *info,
            fb_pitch as int,
            buf@,
            info.height as int,
        ),
{
    let width = info.width as usize;
    let height = info.height as usize;
    let expected_len = match width.checked_mul(height) {
        Some(pixels) => match pixels.checked_mul(3) {
            Some(len) => len,
            None => return Err(Rgb888Error::LengthOverflow),
        },
        None => return Err(Rgb888Error::LengthOverflow),
    };
    if buf.len() < expected_len {
        return Err(Rgb888Error::TooShort { got: buf.len(), expected: expected_len });
    }
    let ghost orig = fb@;
    let fb_len = fb.len();
    let buf_len = buf.len();
    let mut row: usize = 0;
    while row < height
        invariant
            0 <= row <= height,
            info.y + height <= usize::MAX,
            buf_len == buf@.len(),
            width == info.width,
            height == info.height,
            expected_len == width * height * 3,
            expected_len <= buf@.len(),
            fb_len == fb@.len(),
            fb@.len() == orig.len(),
            height > 0 ==> rect_row_start(*info, fb_pitch as int, height - 1) + width * 2
                <= orig.len(),
            fb@ == rgb565_rows_written(orig, *info, fb_pitch as int, buf@, row as int),
        decreases height - row,
    {
        assert(rect_row_start(*info, fb_pitch as int, row as int) <= rect_row_start(
            *info,
            fb_pitch as int,
            height - 1,
        )) by (nonlinear_arith)
            requires
                row <= height - 1,
                fb_pitch >= 0,
        ;
        assert(row * width <= row * width * 3 && row * width * 3 + width * 3 <= width * height * 3)
            by (nonlinear_arith)
            requires
                row < height,
        ;
        assert((info.y + row) * fb_pitch <= (info.y + row) * fb_pitch + info.x * 2);
        let dst_start = (info.y as usize + row) * fb_pitch + info.x as usize * 2;
        let src_start = row * width * 3;
        let ghost before = fb@;
        let mut col: usize = 0;
        while col < width
            invariant
                0 <= col <= width,
                buf_len == buf@.len(),
                fb_len == fb@.len(),
                width == info.width,
                row < height,
                height == info.height,
                src_start == row * width * 3,
                src_start + width * 3 <= buf@.len(),
                dst_start == rect_row_start(*info, fb_pitch as int, row as int),
                dst_start + width * 2 <= fb@.len(),
                fb@.len() == before.len(),
                fb@ == before.take(dst_start as int) + rgb565_row(buf@, width as int, row as int).take(
                    col * 2,
                ) + before.skip(dst_start + col * 2),
            decreases width - col,
        {
            assert(col * 3 + 3 <= width * 3) by (nonlinear_arith)
                requires
                    col < width,
            ;
            let src_idx = src_start + col * 3;
            let r = buf[src_idx];
            let g = buf[src_idx + 1];
            let b = buf[src_idx + 2];
            let pixel: u16 = (((r as u16) >> 3u16) << 11u16) | (((g as u16) >> 2u16) << 5u16) | ((
            b as u16) >> 3u16);
            let lo = #[verifier::truncate] ((pixel & 0xffu16) as u8);
            let hi = #[verifier::truncate] ((pixel >> 8u16) as u8);
            let ghost enc = encode_color(TransferFormat::Rgb565, RgbColor { r, g, b });
            assert(enc == seq![lo, hi]);
            let ghost full = rgb565_row(buf@, width as int, row as int);
            assert((row * width + col) * 3 == src_idx) by (nonlinear_arith)
                requires
                    src_start == row * width * 3,
                    src_idx == src_start + col * 3,
            ;
            assert(full[col * 2] == lo) by {
                assert((col * 2) / 2 == col && (col * 2) % 2 == 0);
            }
            assert(full[col * 2 + 1] == hi) by {
                assert((col * 2 + 1) / 2 == col && (col * 2 + 1) % 2 == 1);
            }
            fb[dst_start + col * 2] = lo;
            fb[dst_start + col * 2 + 1] = hi;
            assert(fb@ =~= before.take(dst_start as int) + full.take(col * 2 + 2) + before.skip(
                dst_start + col * 2 + 2,
            ));
            col = col + 1;
        }
        assert(rgb565_row(buf@, width as int, row as int).take(width * 2) =~= rgb565_row(
            buf@,
            width as int,
            row as int,
        ));
        row = row + 1;
    }
    Ok(())
}

/// A frame shared with viewers: its geometry, its generation, and the path
/// of the file that holds it.
#[derive(Clone, Debug, PartialEq, Eq)]
pub struct PublishedSession {
    pub width: u32,
    pub height: u32,
    pub stride: usize,
    pub generation: u64,
    pub shm_path: String,
}

impl PublishedSession {
    /// A new session of a `width` x `height` RGB565 frame; its bytes must
    /// be countable.
    pub fn new(width: u32, height: u32, shm_path: String) -> (r: Result<
        PublishedSession,
        SharedFramebufferError,
    >)
        requires
            width * 2 <= usize::MAX,
        ensures
            width * 2 * height > usize::MAX ==> r == Err::<PublishedSession, SharedFramebufferError>(
                SharedFramebufferError::LengthOverflow,
            ),
            width * 2 * height <= usize::MAX ==> r == Ok::<
                PublishedSession,
                SharedFramebufferError,
            >(
                PublishedSession {
                    width,
                    height,
                    stride: (width * 2) as usize,
                    generation: 0,
                    shm_path,
                },
            ),
    {
        let stride = width as usize * 2;
        match stride.checked_mul(height as usize) {
            Some(_) => Ok(PublishedSession { width, height, stride, generation: 0, shm_path }),
            None => Err(SharedFramebufferError::LengthOverflow),
        }
    }

    /// The bytes of the shared frame.
    pub fn byte_len(&self) -> (r: usize)
        requires
            self.stride * self.height <= usize::MAX,
        ensures
            r == self.stride * self.height,
    {
        self.stride * self.height as usize
    }

    /// The message announcing the session.
    pub fn metadata_message(&self) -> (r: ServerMessage)
        requires
            self.stride <= u32::MAX,
        ensures
            r matches ServerMessage::SessionStart { width, height, stride, pixel_format, shm_path }
                && width == self.width && height == self.height && stride == self.stride
                && pixel_format == PixelFormat::Rgb565 && shm_path@ == self.shm_path@,
            announces(r, *self),
    {
        ServerMessage::SessionStart {
            width: self.width,
            height: self.height,
            stride: self.stride as u32,
            pixel_format: PixelFormat::Rgb565,
            shm_path: self.shm_path.clone(),
        }
    }

    /// The message announcing the current frame.
    pub fn frame_ready_message(&self) -> (r: ServerMessage)
        requires
            self.stride <= u32::MAX,
        ensures
            r == (ServerMessage::FrameReady {
                width: self.width,
                height: self.height,
                stride: self.stride as u32,
                generation: self.generation,
                full_frame: true,
            }),
    {
        ServerMessage::FrameReady {
            width: self.width,
            height: self.height,
            stride: self.stride as u32,
            generation: self.generation,
            full_frame: true,
        }
    }
}

/// What the viewer daemon tells its viewers: the session it publishes, if
/// any.
pub struct ViewerPublisher {
    pub current_session: Option<PublishedSession>,
}

/// `m` announces session `s`: its size, row stride, RGB565 pixels and
/// shared framebuffer path.
pub open spec fn announces(m: ServerMessage, s: PublishedSession) -> bool {
    m matches ServerMessage::SessionStart { width, height, stride, pixel_format, shm_path }
        && width == s.width && height == s.height && stride == s.stride && pixel_format
        == PixelFormat::Rgb565 && shm_path@ == s.shm_path@
}

/// Two announcements of one session carry the same size, stride, pixel
/// format and path: a viewer greeted during a session maps the framebuffer
/// exactly as one that saw the session start. For a session whose rows are
/// two bytes per pixel, the announced stride is twice the announced width.
pub proof fn lemma_announcements_agree(m1: ServerMessage, m2: ServerMessage, s: PublishedSession)
    requires
        announces(m1, s),
        announces(m2, s),
    ensures
        m1 matches ServerMessage::SessionStart { width: w1, height: h1, stride: r1, pixel_format: f1, shm_path: p1 }
            && m2 matches ServerMessage::SessionStart { width: w2, height: h2, stride: r2, pixel_format: f2, shm_path: p2 }
            && w1 == w2 && h1 == h2 && r1 == r2 && f1 == f2 && p1@ == p2@,
        s.stride == s.width * 2 ==> (m1 matches ServerMessage::SessionStart { width, stride, .. } && stride == width * 2),
{
}

/// A session's stride fits the messages that announce it.
pub open spec fn session_announceable(session: Option<PublishedSession>) -> bool {
    session matches Some(s) ==> s.stride <= u32::MAX
}

impl ViewerPublisher {
    /// No session yet.
    pub fn new() -> (r: ViewerPublisher)
        ensures
            r.current_session is None,
    {
        ViewerPublisher { current_session: None }
    }

    /// The messages a new viewer is greeted with: hello, then the session
    /// and its frame, or that no host is connected.
    pub fn greeting(&self) -> (r: Vec<ServerMessage>)
        requires
            session_announceable(self.current_session),
        ensures
            r@.len() >= 2,
            r@[0] == (ServerMessage::Hello { version: PROTOCOL_VERSION }),
            self.current_session is None ==> r@ == seq![
                ServerMessage::Hello { version: PROTOCOL_VERSION },
                ServerMessage::Disconnected,
            ],
            self.current_session matches Some(s) ==> r@.len() == 3 && (r@[1] matches ServerMessage::SessionStart {
                width,
                height,
                shm_path,
                ..
            } && width == s.width && height == s.height && shm_path@ == s.shm_path@) && announces(r@[1], s) && r@[2]
                == (ServerMessage::FrameReady {
                width: s.width,
                height: s.height,
                stride: s.stride as u32,
                generation: s.generation,
                full_frame: true,
            }),
    {
        let mut messages: Vec<ServerMessage> = Vec::new();
        messages.push(ServerMessage::Hello { version: PROTOCOL_VERSION });
        match &self.current_session {
            Some(session) => {
                messages.push(session.metadata_message());
                messages.push(session.frame_ready_message());
            },
            None => messages.push(ServerMessage::Disconnected),
        }
        messages
    }

    /// Whether a session must be (re)started for the committed state: there
    /// is none, or its size differs.
    pub fn needs_new_session(&self, state: ActiveScanoutState) -> (r: bool)
        ensures
            r == match self.current_session {
                Some(s) => s.width != state.width || s.height != state.height,
                None => true,
            },
    {
        match &self.current_session {
            Some(session) => session.width != state.width || session.height != state.height,
            None => true,
        }
    }

    /// Starts publishing `session`; returns the message announcing it.
    pub fn start_session(&mut self, session: PublishedSession) -> (r: ServerMessage)
        requires
            session.stride <= u32::MAX,
        ensures
            final(self).current_session == Some(session),
            r matches ServerMessage::SessionStart { width, height, shm_path, .. } && width
                == session.width && height == session.height && shm_path@ == session.shm_path@,
            announces(r, session),
    {
        let message = session.metadata_message();
        self.current_session = Some(session);
        message
    }

    /// A new frame is in the shared framebuffer: the generation moves on
    /// and the message announcing it is returned; nothing without a
    /// session.
    pub fn frame_ready(&mut self) -> (r: Option<ServerMessage>)
        requires
            session_announceable(old(self).current_session),
            old(self).current_session matches Some(s) ==> s.generation < u64::MAX,
        ensures
            match old(self).current_session {
                None => r is None && final(self).current_session is None,
                Some(s) => {
                    let next = PublishedSession { generation: (s.generation + 1) as u64, ..s };
                    &&& final(self).current_session == Some(next)
                    &&& r == Some(
                        ServerMessage::FrameReady {
                            width: s.width,
                            height: s.height,
                            stride: s.stride as u32,
                            generation: next.generation,
                            full_frame: true,
                        },
                    )
                },
            },
    {
        match &mut self.current_session {
            Some(session) => {
                session.generation = session.generation + 1;
                Some(session.frame_ready_message())
            },
            None => None,
        }
    }

    /// The host left: the session ends.
    pub fn disconnected(&mut self) -> (r: ServerMessage)
        ensures
            final(self).current_session is None,
            r == ServerMessage::Disconnected,
    {
        self.current_session = None;
        ServerMessage::Disconnected
    }

    /// The daemon stops.
    pub fn shutdown(&self) -> (r: ServerMessage)
        ensures
            r == ServerMessage::Shutdown,
    {
        ServerMessage::Shutdown
    }
}

/// The items whose flag is set, in their order.
pub open spec fn kept<T>(items: Seq<T>, keep: Seq<bool>) -> Seq<T>
    decreases items.len(),
{
    if items.len() == 0 {
        seq![]
    } else {
        let rest = kept(items.drop_last(), keep.drop_last());
        if keep.last() {
            rest.push(items.last())
        } else {
            rest
        }
    }
}

/// The viewers still connected after a broadcast: those the message was
/// delivered to, in their order.
pub fn retain_delivered<T>(clients: &mut Vec<T>, delivered: &[bool])
    requires
        old(clients)@.len() == delivered@.len(),
    ensures
        final(clients)@ == kept(old(clients)@, delivered@),
{
    let mut idx: usize = 0;
    let mut k: usize = 0;
    while k < delivered.len()
        invariant
            0 <= idx <= k <= delivered@.len(),
            clients@.len() == idx + (delivered@.len() - k),
            old(clients)@.len() == delivered@.len(),
            clients@.take(idx as int) == kept(old(clients)@.take(k as int), delivered@.take(k as int)),
            clients@.skip(idx as int) == old(clients)@.skip(k as int),
        decreases delivered@.len() - k,
    {
        let ghost items = old(clients)@;
        assert(items.take(k + 1).drop_last() =~= items.take(k as int));
        assert(delivered@.take(k + 1).drop_last() =~= delivered@.take(k as int));
        assert(clients@.skip(idx as int)[0] == items.skip(k as int)[0]);
        if delivered[k] {
            assert(clients@.take(idx + 1) =~= clients@.take(idx as int).push(clients@[idx as int]));
            assert(clients@.skip(idx + 1) =~= clients@.skip(idx as int).skip(1));
            assert(items.skip(k + 1) =~= items.skip(k as int).skip(1));
            idx = idx + 1;
        } else {
            let ghost before = clients@;
            clients.remove(idx);
            assert(clients@.take(idx as int) =~= before.take(idx as int));
            assert(clients@.skip(idx as int) =~= before.skip(idx as int).skip(1));
            assert(items.skip(k + 1) =~= items.skip(k as int).skip(1));
        }
        k = k + 1;
    }
    assert(clients@.take(idx as int) =~= clients@);
    assert(old(clients)@.take(k as int) =~= old(clients)@);
    assert(delivered@.take(k as int) =~= delivered@);
}


/// The states a USB device controller reports.
#[derive(Clone, Copy, Debug, PartialEq, Eq, Structural)]
pub enum UdcLinkState {
    NotAttached,
    Attached,
    Powered,
    Reconnecting,
    Unauthenticated,
    Default,
    Addressed,
    Configured,
    Suspended,
    Unknown,
}

/// Whether the host has gone: the controller reports any state but
/// `Configured`. A state that could not be read (`None`) counts as still
/// attached, so a passing read error ends no session.
pub fn udc_is_detached(state: Option<UdcLinkState>) -> (r: bool)
    ensures
        r == (state is Some && state != Some(UdcLinkState::Configured)),
{
    match state {
        Some(UdcLinkState::Configured) => false,
        Some(_) => true,
        None => false,
    }
}

} // verus!
