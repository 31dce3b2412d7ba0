//! GUD protocol constants, the structures exchanged over the control pipe,
//! and their byte codecs.
use vstd::prelude::*;
use crate::wire::{
    lemma_u16_le_bytes_of_value, lemma_u16_le_roundtrip, lemma_u32_le_bytes_of_value,
    lemma_u32_le_roundtrip, push_u16_le, push_u32_le, read_u16_le, read_u32_le, u16_from_le,
    u16_le_bytes, u32_from_le, u32_le_bytes,
};

verus! {

pub const GUD_DISPLAY_MAGIC: u32 = 0x1d50614d;

pub const GUD_REQ_GET_STATUS: u8 = 0x00;
pub const GUD_REQ_GET_DESCRIPTOR: u8 = 0x01;
pub const GUD_REQ_GET_FORMATS: u8 = 0x40;
pub const GUD_REQ_GET_PROPERTIES: u8 = 0x41;
pub const GUD_REQ_GET_CONNECTORS: u8 = 0x50;
pub const GUD_REQ_GET_CONNECTOR_PROPERTIES: u8 = 0x51;
pub const GUD_REQ_GET_CONNECTOR_STATUS: u8 = 0x54;
pub const GUD_REQ_GET_CONNECTOR_MODES: u8 = 0x55;
pub const GUD_REQ_GET_CONNECTOR_EDID: u8 = 0x56;

pub const GUD_REQ_SET_CONNECTOR_FORCE_DETECT: u8 = 0x53;
pub const GUD_REQ_SET_BUFFER: u8 = 0x60;
pub const GUD_REQ_SET_STATE_CHECK: u8 = 0x61;
pub const GUD_REQ_SET_STATE_COMMIT: u8 = 0x62;
pub const GUD_REQ_SET_CONTROLLER_ENABLE: u8 = 0x63;
pub const GUD_REQ_SET_DISPLAY_ENABLE: u8 = 0x64;

pub const GUD_COMPRESSION_LZ4: u8 = 0x01;

pub const GUD_CONNECTOR_STATUS_CONNECTED: u8 = 0x01;
pub const GUD_CONNECTOR_STATUS_CHANGED: u8 = 0x80;

pub const GUD_DISPLAY_FLAG_STATUS_ON_SET: u32 = 1;
pub const GUD_DISPLAY_MODE_FLAG_PREFERRED: u32 = 0x400;
pub const GUD_DISPLAY_MODE_FLAG_USER_MASK: u32 = 0x0000_33ff;
pub const GUD_PIXEL_FORMAT_RGB565: u8 = 0x40;
pub const GUD_PIXEL_FORMAT_RGB888: u8 = 0x50;
pub const GUD_PIXEL_FORMAT_XRGB8888: u8 = 0x80;

pub const GUD_CONNECTOR_TYPE_PANEL: u8 = 0;

pub const GUD_STATUS_OK: u8 = 0;
pub const GUD_STATUS_BUSY: u8 = 0x01;
pub const GUD_STATUS_REQUEST_NOT_SUPPORTED: u8 = 0x02;
pub const GUD_STATUS_INVALID_PARAMETER: u8 = 0x04;
pub const GUD_STATUS_ERROR: u8 = 0x05;

/// Encoded size of a state check request without its property list.
pub const GUD_STATE_CHECK_HEADER_LEN: usize = 26;
/// Encoded size of one property entry of a state check request.
pub const GUD_PROPERTY_SIZE: usize = 10;
/// Encoded size of a display mode.
pub const GUD_DISPLAY_MODE_LEN: usize = 24;
/// Encoded size of the display descriptor.
pub const GUD_DISPLAY_DESCRIPTOR_LEN: usize = 30;
/// Encoded size of a connector descriptor.
pub const GUD_CONNECTOR_DESCRIPTOR_LEN: usize = 5;
/// Encoded size of a SET_BUFFER request.
pub const GUD_SET_BUFFER_LEN: usize = 25;

/// A display timing as GUD transfers it.
#[derive(Clone, Copy, Debug, PartialEq, Eq, Structural)]
pub struct DisplayMode {
    pub clock: u32,
    pub hdisplay: u16,
    pub hsync_start: u16,
    pub hsync_end: u16,
    pub htotal: u16,
    pub vdisplay: u16,
    pub vsync_start: u16,
    pub vsync_end: u16,
    pub vtotal: u16,
    pub flags: u32,
}

/// The display descriptor a device reports to the host.
#[derive(Clone, Copy, Debug, PartialEq, Eq, Structural)]
pub struct DisplayDescriptor {
    pub magic: u32,
    pub version: u8,
    pub flags: u32,
    pub compression: u8,
    pub max_buffer_size: u32,
    pub min_width: u32,
    pub max_width: u32,
    pub min_height: u32,
    pub max_height: u32,
}

/// One entry of the connector list.
#[derive(Clone, Copy, Debug, PartialEq, Eq, Structural)]
pub struct ConnectorDescriptor {
    pub connector_type: u8,
    pub flags: u32,
}

/// The fixed part of a SET_STATE_CHECK request.
#[derive(Clone, Copy, Debug, PartialEq, Eq, Structural)]
pub struct StateCheckHeader {
    pub mode: DisplayMode,
    pub format: u8,
    pub connector: u8,
}

/// A SET_BUFFER request: the rectangle and the size of the bulk payload that follows.
#[derive(Clone, Copy, Debug, PartialEq, Eq, Structural)]
pub struct SetBuffer {
    pub x: u32,
    pub y: u32,
    pub width: u32,
    pub height: u32,
    pub length: u32,
    pub compression: u8,
    pub compressed_length: u32,
}

/// Whether two modes carry the same timing and the same user-visible flags.
pub open spec fn same_user_timing(left: DisplayMode, right: DisplayMode) -> bool {
    &&& left.clock == right.clock
    &&& left.hdisplay == right.hdisplay
    &&& left.hsync_start == right.hsync_start
    &&& left.hsync_end == right.hsync_end
    &&& left.htotal == right.htotal
    &&& left.vdisplay == right.vdisplay
    &&& left.vsync_start == right.vsync_start
    &&& left.vsync_end == right.vsync_end
    &&& left.vtotal == right.vtotal
    &&& (left.flags & GUD_DISPLAY_MODE_FLAG_USER_MASK) == (right.flags
        & GUD_DISPLAY_MODE_FLAG_USER_MASK)
}

/// Compares two modes by timing and user-visible flags, ignoring private flag bits.
pub fn modes_have_same_user_timing(left: &DisplayMode, right: &DisplayMode) -> (r: bool)
    ensures
        r == same_user_timing(*left, *right),
{
    left.clock == right.clock && left.hdisplay == right.hdisplay && left.hsync_start
        == right.hsync_start && left.hsync_end == right.hsync_end && left.htotal == right.htotal
        && left.vdisplay == right.vdisplay && left.vsync_start == right.vsync_start
        && left.vsync_end == right.vsync_end && left.vtotal == right.vtotal && (left.flags
        & GUD_DISPLAY_MODE_FLAG_USER_MASK) == (right.flags & GUD_DISPLAY_MODE_FLAG_USER_MASK)
}

/// The encoding of a display mode.
pub open spec fn display_mode_bytes(m: DisplayMode) -> Seq<u8> {
    u32_le_bytes(m.clock) + u16_le_bytes(m.hdisplay) + u16_le_bytes(m.hsync_start)
        + u16_le_bytes(m.hsync_end) + u16_le_bytes(m.htotal) + u16_le_bytes(m.vdisplay)
        + u16_le_bytes(m.vsync_start) + u16_le_bytes(m.vsync_end) + u16_le_bytes(m.vtotal)
        + u32_le_bytes(m.flags)
}

/// The display mode encoded by the first 24 bytes of `s`.
pub open spec fn parse_display_mode(s: Seq<u8>) -> DisplayMode {
    DisplayMode {
        clock: u32_from_le(s.subrange(0, 4)) as u32,
        hdisplay: u16_from_le(s.subrange(4, 6)) as u16,
        hsync_start: u16_from_le(s.subrange(6, 8)) as u16,
        hsync_end: u16_from_le(s.subrange(8, 10)) as u16,
        htotal: u16_from_le(s.subrange(10, 12)) as u16,
        vdisplay: u16_from_le(s.subrange(12, 14)) as u16,
        vsync_start: u16_from_le(s.subrange(14, 16)) as u16,
        vsync_end: u16_from_le(s.subrange(16, 18)) as u16,
        vtotal: u16_from_le(s.subrange(18, 20)) as u16,
        flags: u32_from_le(s.subrange(20, 24)) as u32,
    }
}

/// The flags a mode carries on the wire: its user flags and its preferred bit.
pub open spec fn wire_mode_flags(flags: u32) -> u32 {
    (flags & GUD_DISPLAY_MODE_FLAG_USER_MASK) | (flags & GUD_DISPLAY_MODE_FLAG_PREFERRED)
}

/// A mode as it is sent to the host: private flag bits cleared.
pub open spec fn wire_mode(m: DisplayMode) -> DisplayMode {
    DisplayMode { flags: wire_mode_flags(m.flags), ..m }
}

/// The encoding of a list of modes, each as it is sent to the host.
pub open spec fn display_modes_bytes(ms: Seq<DisplayMode>) -> Seq<u8>
    decreases ms.len(),
{
    if ms.len() == 0 {
        Seq::empty()
    } else {
        display_modes_bytes(ms.drop_last()) + display_mode_bytes(wire_mode(ms.last()))
    }
}

/// The encoding of the display descriptor.
pub open spec fn display_descriptor_bytes(d: DisplayDescriptor) -> Seq<u8> {
    u32_le_bytes(d.magic) + seq![d.version] + u32_le_bytes(d.flags) + seq![d.compression]
        + u32_le_bytes(d.max_buffer_size) + u32_le_bytes(d.min_width) + u32_le_bytes(d.max_width)
        + u32_le_bytes(d.min_height) + u32_le_bytes(d.max_height)
}

/// The encoding of a connector descriptor.
pub open spec fn connector_descriptor_bytes(c: ConnectorDescriptor) -> Seq<u8> {
    seq![c.connector_type] + u32_le_bytes(c.flags)
}

/// The encoding of a list of connector descriptors.
pub open spec fn connector_descriptors_bytes(cs: Seq<ConnectorDescriptor>) -> Seq<u8>
    decreases cs.len(),
{
    if cs.len() == 0 {
        Seq::empty()
    } else {
        connector_descriptors_bytes(cs.drop_last()) + connector_descriptor_bytes(cs.last())
    }
}

/// The state check header encoded by the first 26 bytes of `s`.
pub open spec fn parse_state_check_header(s: Seq<u8>) -> StateCheckHeader {
    StateCheckHeader {
        mode: parse_display_mode(s.subrange(0, 24)),
        format: s[24],
        connector: s[25],
    }
}

/// The encoding of a state check header.
pub open spec fn state_check_header_bytes(h: StateCheckHeader) -> Seq<u8> {
    display_mode_bytes(h.mode) + seq![h.format, h.connector]
}

/// The SET_BUFFER request encoded by the first 25 bytes of `s`.
pub open spec fn parse_set_buffer(s: Seq<u8>) -> SetBuffer {
    SetBuffer {
        x: u32_from_le(s.subrange(0, 4)) as u32,
        y: u32_from_le(s.subrange(4, 8)) as u32,
        width: u32_from_le(s.subrange(8, 12)) as u32,
        height: u32_from_le(s.subrange(12, 16)) as u32,
        length: u32_from_le(s.subrange(16, 20)) as u32,
        compression: s[20],
        compressed_length: u32_from_le(s.subrange(21, 25)) as u32,
    }
}

/// The encoding of a SET_BUFFER request.
pub open spec fn set_buffer_bytes(b: SetBuffer) -> Seq<u8> {
    u32_le_bytes(b.x) + u32_le_bytes(b.y) + u32_le_bytes(b.width) + u32_le_bytes(b.height)
        + u32_le_bytes(b.length) + seq![b.compression] + u32_le_bytes(b.compressed_length)
}

/// Appends the encoding of `m`.
pub fn encode_display_mode(m: &DisplayMode, out: &mut Vec<u8>)
    ensures
        final(out)@ == old(out)@ + display_mode_bytes(*m),
{
    push_u32_le(out, m.clock);
    push_u16_le(out, m.hdisplay);
    push_u16_le(out, m.hsync_start);
    push_u16_le(out, m.hsync_end);
    push_u16_le(out, m.htotal);
    push_u16_le(out, m.vdisplay);
    push_u16_le(out, m.vsync_start);
    push_u16_le(out, m.vsync_end);
    push_u16_le(out, m.vtotal);
    push_u32_le(out, m.flags);
    assert(final(out)@ =~= old(out)@ + display_mode_bytes(*m));
}

/// Reads the display mode encoded at `offset`.
pub fn decode_display_mode(buf: &[u8], offset: usize) -> (r: DisplayMode)
    requires
        offset + 24 <= buf.len(),
    ensures
        r == parse_display_mode(buf@.subrange(offset as int, offset + 24)),
{
    let s = Ghost(buf@.subrange(offset as int, offset + 24));
    assert(s@.subrange(0, 4) =~= buf@.subrange(offset as int, offset + 4));
    assert(s@.subrange(4, 6) =~= buf@.subrange(offset + 4, offset + 6));
    assert(s@.subrange(6, 8) =~= buf@.subrange(offset + 6, offset + 8));
    assert(s@.subrange(8, 10) =~= buf@.subrange(offset + 8, offset + 10));
    assert(s@.subrange(10, 12) =~= buf@.subrange(offset + 10, offset + 12));
    assert(s@.subrange(12, 14) =~= buf@.subrange(offset + 12, offset + 14));
    assert(s@.subrange(14, 16) =~= buf@.subrange(offset + 14, offset + 16));
    assert(s@.subrange(16, 18) =~= buf@.subrange(offset + 16, offset + 18));
    assert(s@.subrange(18, 20) =~= buf@.subrange(offset + 18, offset + 20));
    assert(s@.subrange(20, 24) =~= buf@.subrange(offset + 20, offset + 24));
    let clock = read_u32_le(buf, offset);
    let hdisplay = read_u16_le(buf, offset + 4);
    let hsync_start = read_u16_le(buf, offset + 6);
    let hsync_end = read_u16_le(buf, offset + 8);
    let htotal = read_u16_le(buf, offset + 10);
    let vdisplay = read_u16_le(buf, offset + 12);
    let vsync_start = read_u16_le(buf, offset + 14);
    let vsync_end = read_u16_le(buf, offset + 16);
    let vtotal = read_u16_le(buf, offset + 18);
    let flags = read_u32_le(buf, offset + 20);
    DisplayMode {
        clock,
        hdisplay,
        hsync_start,
        hsync_end,
        htotal,
        vdisplay,
        vsync_start,
        vsync_end,
        vtotal,
        flags,
    }
}

/// A mode with its private flag bits cleared, keeping the user flags and the
/// preferred bit.
pub fn wire_normalized_mode(m: &DisplayMode) -> (r: DisplayMode)
    ensures
        r == wire_mode(*m),
{
    DisplayMode {
        flags: (m.flags & GUD_DISPLAY_MODE_FLAG_USER_MASK) | (m.flags
            & GUD_DISPLAY_MODE_FLAG_PREFERRED),
        ..*m
    }
}

/// Encodes a list of modes for GET_CONNECTOR_MODES, each with its private flag
/// bits cleared.
pub fn serialize_display_modes(modes: &[DisplayMode]) -> (r: Vec<u8>)
    ensures
        r@ == display_modes_bytes(modes@),
{
    let mut buf: Vec<u8> = Vec::new();
    let mut i: usize = 0;
    while i < modes.len()
        invariant
            0 <= i <= modes@.len(),
            buf@ == display_modes_bytes(modes@.subrange(0, i as int)),
        decreases modes@.len() - i,
    {
        let normalized = wire_normalized_mode(&modes[i]);
        encode_display_mode(&normalized, &mut buf);
        assert(modes@.subrange(0, i + 1).drop_last() =~= modes@.subrange(0, i as int));
        i = i + 1;
    }
    assert(modes@.subrange(0, modes@.len() as int) =~= modes@);
    buf
}

/// Encodes the display descriptor.
pub fn serialize_display_descriptor(d: &DisplayDescriptor) -> (r: Vec<u8>)
    ensures
        r@ == display_descriptor_bytes(*d),
{
    let mut out: Vec<u8> = Vec::new();
    push_u32_le(&mut out, d.magic);
    out.push(d.version);
    push_u32_le(&mut out, d.flags);
    out.push(d.compression);
    push_u32_le(&mut out, d.max_buffer_size);
    push_u32_le(&mut out, d.min_width);
    push_u32_le(&mut out, d.max_width);
    push_u32_le(&mut out, d.min_height);
    push_u32_le(&mut out, d.max_height);
    assert(out@ =~= display_descriptor_bytes(*d));
    out
}

/// Encodes a list of connector descriptors.
pub fn serialize_connector_descriptors(connectors: &[ConnectorDescriptor]) -> (r: Vec<u8>)
    ensures
        r@ == connector_descriptors_bytes(connectors@),
{
    let mut buf: Vec<u8> = Vec::new();
    let mut i: usize = 0;
    while i < connectors.len()
        invariant
            0 <= i <= connectors@.len(),
            buf@ == connector_descriptors_bytes(connectors@.subrange(0, i as int)),
        decreases connectors@.len() - i,
    {
        let ghost before = buf@;
        buf.push(connectors[i].connector_type);
        push_u32_le(&mut buf, connectors[i].flags);
        assert(connectors@.subrange(0, i + 1).drop_last() =~= connectors@.subrange(0, i as int));
        assert(buf@ =~= before + connector_descriptor_bytes(connectors@[i as int]));
        i = i + 1;
    }
    assert(connectors@.subrange(0, connectors@.len() as int) =~= connectors@);
    buf
}

/// Encodes a state check header.
pub fn serialize_state_check_header(h: &StateCheckHeader) -> (r: Vec<u8>)
    ensures
        r@ == state_check_header_bytes(*h),
{
    let mut out: Vec<u8> = Vec::new();
    encode_display_mode(&h.mode, &mut out);
    out.push(h.format);
    out.push(h.connector);
    assert(out@ =~= state_check_header_bytes(*h));
    out
}

/// Reads the state check header at the start of `buf`.
pub fn decode_state_check_header(buf: &[u8]) -> (r: StateCheckHeader)
    requires
        buf@.len() >= GUD_STATE_CHECK_HEADER_LEN,
    ensures
        r == parse_state_check_header(buf@),
{
    let mode = decode_display_mode(buf, 0);
    assert(buf@.subrange(0, 26).subrange(0, 24) =~= buf@.subrange(0, 24));
    StateCheckHeader { mode, format: buf[24], connector: buf[25] }
}

/// Encodes a SET_BUFFER request.
pub fn serialize_set_buffer(b: &SetBuffer) -> (r: Vec<u8>)
    ensures
        r@ == set_buffer_bytes(*b),
{
    let mut out: Vec<u8> = Vec::new();
    push_u32_le(&mut out, b.x);
    push_u32_le(&mut out, b.y);
    push_u32_le(&mut out, b.width);
    push_u32_le(&mut out, b.height);
    push_u32_le(&mut out, b.length);
    out.push(b.compression);
    push_u32_le(&mut out, b.compressed_length);
    assert(out@ =~= set_buffer_bytes(*b));
    out
}

/// Reads a SET_BUFFER request; `None` when fewer than 25 bytes arrived.
/// Bytes past the request are ignored.
pub fn decode_set_buffer(buf: &[u8]) -> (r: Option<SetBuffer>)
    ensures
        r == (if buf@.len() >= GUD_SET_BUFFER_LEN {
            Some(parse_set_buffer(buf@))
        } else {
            None::<SetBuffer>
        }),
{
    if buf.len() < GUD_SET_BUFFER_LEN {
        return None;
    }
    Some(
        SetBuffer {
            x: read_u32_le(buf, 0),
            y: read_u32_le(buf, 4),
            width: read_u32_le(buf, 8),
            height: read_u32_le(buf, 12),
            length: read_u32_le(buf, 16),
            compression: buf[20],
            compressed_length: read_u32_le(buf, 21),
        },
    )
}

/// Why a display descriptor could not be built.
#[derive(Clone, Copy, Debug, PartialEq, Eq, Structural)]
pub enum DescriptorError {
    UnsupportedFlags { flags: u32 },
    NaturalSizeOverflow,
    ZeroMaxBufferSize,
    MaxBufferSizeTooLarge { max_buffer_size: u32, natural: u32 },
}

/// The largest payload a frame of the maximum size needs at 4 bytes per pixel.
pub open spec fn natural_max_buffer_size(max_width: u32, max_height: u32) -> int {
    max_width * max_height * 4
}

/// The descriptor built from the advertised limits, or why it cannot be.
pub open spec fn descriptor_outcome(
    min_width: u32,
    min_height: u32,
    max_width: u32,
    max_height: u32,
    compression: u8,
    max_buffer_size: Option<u32>,
    flags: u32,
) -> Result<DisplayDescriptor, DescriptorError> {
    let natural = natural_max_buffer_size(max_width, max_height);
    if natural > u32::MAX {
        Err(DescriptorError::NaturalSizeOverflow)
    } else {
        let size = match max_buffer_size {
            Some(v) => v,
            None => natural as u32,
        };
        if size == 0 {
            Err(DescriptorError::ZeroMaxBufferSize)
        } else if size > natural {
            Err(
                DescriptorError::MaxBufferSizeTooLarge {
                    max_buffer_size: size,
                    natural: natural as u32,
                },
            )
        } else {
            Ok(
                DisplayDescriptor {
                    magic: GUD_DISPLAY_MAGIC,
                    version: 1,
                    flags,
                    compression,
                    max_buffer_size: size,
                    min_width,
                    max_width,
                    min_height,
                    max_height,
                },
            )
        }
    }
}

/// Builds the display descriptor with the given flags. Without an explicit
/// maximum buffer size, a full frame at 4 bytes per pixel is advertised; an
/// explicit one must be positive and no larger than that.
pub fn build_display_descriptor_with_flags(
    min_width: u32,
    min_height: u32,
    max_width: u32,
    max_height: u32,
    compression: u8,
    max_buffer_size: Option<u32>,
    flags: u32,
) -> (r: Result<DisplayDescriptor, DescriptorError>)
    ensures
        r == descriptor_outcome(
            min_width,
            min_height,
            max_width,
            max_height,
            compression,
            max_buffer_size,
            flags,
        ),
{
    let natural = match max_width.checked_mul(max_height) {
        Some(pixels) => match pixels.checked_mul(4) {
            Some(n) => n,
            None => return Err(DescriptorError::NaturalSizeOverflow),
        },
        None => {
            proof {
                assert(max_width * max_height * 4 >= max_width * max_height) by (nonlinear_arith)
                    requires
                        max_width * max_height >= 0,
                ;
            }
            return Err(DescriptorError::NaturalSizeOverflow);
        },
    };
    let size = match max_buffer_size {
        Some(v) => v,
        None => natural,
    };
    if size == 0 {
        return Err(DescriptorError::ZeroMaxBufferSize);
    }
    if size > natural {
        return Err(DescriptorError::MaxBufferSizeTooLarge { max_buffer_size: size, natural });
    }
    Ok(
        DisplayDescriptor {
            magic: GUD_DISPLAY_MAGIC,
            version: 1,
            flags,
            compression,
            max_buffer_size: size,
            min_width,
            max_width,
            min_height,
            max_height,
        },
    )
}

/// Builds the display descriptor with no flags set.
pub fn build_display_descriptor(
    min_width: u32,
    min_height: u32,
    max_width: u32,
    max_height: u32,
    compression: u8,
    max_buffer_size: Option<u32>,
) -> (r: Result<DisplayDescriptor, DescriptorError>)
    ensures
        r == descriptor_outcome(
            min_width,
            min_height,
            max_width,
            max_height,
            compression,
            max_buffer_size,
            0,
        ),
{
    build_display_descriptor_with_flags(
        min_width,
        min_height,
        max_width,
        max_height,
        compression,
        max_buffer_size,
        0,
    )
}

/// The bytes answering GET_DESCRIPTOR: only the status-on-set flag may be
/// requested; the descriptor is then built and encoded.
pub fn display_descriptor_reply(
    min_width: u32,
    min_height: u32,
    max_width: u32,
    max_height: u32,
    compression: u8,
    max_buffer_size: Option<u32>,
    flags: u32,
) -> (r: Result<Vec<u8>, DescriptorError>)
    ensures
        flags & !GUD_DISPLAY_FLAG_STATUS_ON_SET != 0 ==> r == Err::<Vec<u8>, DescriptorError>(
            DescriptorError::UnsupportedFlags { flags },
        ),
        flags & !GUD_DISPLAY_FLAG_STATUS_ON_SET == 0 ==> match descriptor_outcome(
            min_width,
            min_height,
            max_width,
            max_height,
            compression,
            max_buffer_size,
            flags,
        ) {
            Ok(d) => r matches Ok(bytes) && bytes@ == display_descriptor_bytes(d),
            Err(e) => r == Err::<Vec<u8>, DescriptorError>(e),
        },
{
    if flags & !GUD_DISPLAY_FLAG_STATUS_ON_SET != 0 {
        return Err(DescriptorError::UnsupportedFlags { flags });
    }
    let descriptor = build_display_descriptor_with_flags(
        min_width,
        min_height,
        max_width,
        max_height,
        compression,
        max_buffer_size,
        flags,
    )?;
    Ok(serialize_display_descriptor(&descriptor))
}

/// Reading back an encoded display mode gives the mode.
pub proof fn lemma_display_mode_roundtrip(m: DisplayMode)
    ensures
        display_mode_bytes(m).len() == GUD_DISPLAY_MODE_LEN,
        parse_display_mode(display_mode_bytes(m)) == m,
{
    let s = display_mode_bytes(m);
    assert(s.subrange(0, 4) =~= u32_le_bytes(m.clock));
    assert(s.subrange(4, 6) =~= u16_le_bytes(m.hdisplay));
    assert(s.subrange(6, 8) =~= u16_le_bytes(m.hsync_start));
    assert(s.subrange(8, 10) =~= u16_le_bytes(m.hsync_end));
    assert(s.subrange(10, 12) =~= u16_le_bytes(m.htotal));
    assert(s.subrange(12, 14) =~= u16_le_bytes(m.vdisplay));
    assert(s.subrange(14, 16) =~= u16_le_bytes(m.vsync_start));
    assert(s.subrange(16, 18) =~= u16_le_bytes(m.vsync_end));
    assert(s.subrange(18, 20) =~= u16_le_bytes(m.vtotal));
    assert(s.subrange(20, 24) =~= u32_le_bytes(m.flags));
    lemma_u32_le_roundtrip(m.clock);
    lemma_u16_le_roundtrip(m.hdisplay);
    lemma_u16_le_roundtrip(m.hsync_start);
    lemma_u16_le_roundtrip(m.hsync_end);
    lemma_u16_le_roundtrip(m.htotal);
    lemma_u16_le_roundtrip(m.vdisplay);
    lemma_u16_le_roundtrip(m.vsync_start);
    lemma_u16_le_roundtrip(m.vsync_end);
    lemma_u16_le_roundtrip(m.vtotal);
    lemma_u32_le_roundtrip(m.flags);
}

/// Any 24 bytes are the encoding of the mode they decode to.
pub proof fn lemma_display_mode_bytes_of_parse(s: Seq<u8>)
    requires
        s.len() == GUD_DISPLAY_MODE_LEN,
    ensures
        display_mode_bytes(parse_display_mode(s)) == s,
{
    lemma_u32_le_bytes_of_value(s.subrange(0, 4));
    lemma_u16_le_bytes_of_value(s.subrange(4, 6));
    lemma_u16_le_bytes_of_value(s.subrange(6, 8));
    lemma_u16_le_bytes_of_value(s.subrange(8, 10));
    lemma_u16_le_bytes_of_value(s.subrange(10, 12));
    lemma_u16_le_bytes_of_value(s.subrange(12, 14));
    lemma_u16_le_bytes_of_value(s.subrange(14, 16));
    lemma_u16_le_bytes_of_value(s.subrange(16, 18));
    lemma_u16_le_bytes_of_value(s.subrange(18, 20));
    lemma_u32_le_bytes_of_value(s.subrange(20, 24));
    assert(display_mode_bytes(parse_display_mode(s)) =~= s);
}

/// Reading back an encoded state check header gives the header.
pub proof fn lemma_state_check_header_roundtrip(h: StateCheckHeader)
    ensures
        state_check_header_bytes(h).len() == GUD_STATE_CHECK_HEADER_LEN,
        parse_state_check_header(state_check_header_bytes(h)) == h,
{
    let s = state_check_header_bytes(h);
    lemma_display_mode_roundtrip(h.mode);
    assert(s.subrange(0, 24) =~= display_mode_bytes(h.mode));
}

/// Reading back an encoded SET_BUFFER request gives the request.
pub proof fn lemma_set_buffer_roundtrip(b: SetBuffer)
    ensures
        set_buffer_bytes(b).len() == GUD_SET_BUFFER_LEN,
        parse_set_buffer(set_buffer_bytes(b)) == b,
{
    let s = set_buffer_bytes(b);
    assert(s.subrange(0, 4) =~= u32_le_bytes(b.x));
    assert(s.subrange(4, 8) =~= u32_le_bytes(b.y));
    assert(s.subrange(8, 12) =~= u32_le_bytes(b.width));
    assert(s.subrange(12, 16) =~= u32_le_bytes(b.height));
    assert(s.subrange(16, 20) =~= u32_le_bytes(b.length));
    assert(s.subrange(21, 25) =~= u32_le_bytes(b.compressed_length));
    lemma_u32_le_roundtrip(b.x);
    lemma_u32_le_roundtrip(b.y);
    lemma_u32_le_roundtrip(b.width);
    lemma_u32_le_roundtrip(b.height);
    lemma_u32_le_roundtrip(b.length);
    lemma_u32_le_roundtrip(b.compressed_length);
}

/// The mode list encoding holds 24 bytes per mode.
pub proof fn lemma_display_modes_bytes_len(ms: Seq<DisplayMode>)
    ensures
        display_modes_bytes(ms).len() == GUD_DISPLAY_MODE_LEN * ms.len(),
    decreases ms.len(),
{
    if ms.len() > 0 {
        lemma_display_modes_bytes_len(ms.drop_last());
        lemma_display_mode_roundtrip(wire_mode(ms.last()));
    }
}

/// The connector list encoding holds 5 bytes per connector.
pub proof fn lemma_connector_descriptors_bytes_len(cs: Seq<ConnectorDescriptor>)
    ensures
        connector_descriptors_bytes(cs).len() == GUD_CONNECTOR_DESCRIPTOR_LEN * cs.len(),
    decreases cs.len(),
{
    if cs.len() > 0 {
        lemma_connector_descriptors_bytes_len(cs.drop_last());
    }
}

/// The display descriptor encodes to 30 bytes, magic first and version next.
pub proof fn lemma_display_descriptor_layout(d: DisplayDescriptor)
    ensures
        display_descriptor_bytes(d).len() == GUD_DISPLAY_DESCRIPTOR_LEN,
        display_descriptor_bytes(d).subrange(0, 4) == u32_le_bytes(d.magic),
        display_descriptor_bytes(d)[4] == d.version,
{
    assert(display_descriptor_bytes(d).subrange(0, 4) =~= u32_le_bytes(d.magic));
}

/// The descriptor sent for GET_DESCRIPTOR is 30 bytes with every field at
/// its fixed offset, multi-byte fields least significant byte first: magic
/// at 0, version at 4, flags at 5, compression at 9, the largest buffer at
/// 10, then the minimum width at 14, maximum width at 18, minimum height at
/// 22 and maximum height at 26.
pub proof fn lemma_display_descriptor_field_offsets(d: DisplayDescriptor)
    ensures
        ({
            let b = display_descriptor_bytes(d);
            &&& b.len() == 30
            &&& b[0] + 256 * b[1] + 65536 * b[2] + 16777216 * b[3] == d.magic
            &&& b[4] == d.version
            &&& b[5] + 256 * b[6] + 65536 * b[7] + 16777216 * b[8] == d.flags
            &&& b[9] == d.compression
            &&& b[10] + 256 * b[11] + 65536 * b[12] + 16777216 * b[13] == d.max_buffer_size
            &&& b[14] + 256 * b[15] + 65536 * b[16] + 16777216 * b[17] == d.min_width
            &&& b[18] + 256 * b[19] + 65536 * b[20] + 16777216 * b[21] == d.max_width
            &&& b[22] + 256 * b[23] + 65536 * b[24] + 16777216 * b[25] == d.min_height
            &&& b[26] + 256 * b[27] + 65536 * b[28] + 16777216 * b[29] == d.max_height
        }),
{
    let b = display_descriptor_bytes(d);
    lemma_u32_le_roundtrip(d.magic);
    lemma_u32_le_roundtrip(d.flags);
    lemma_u32_le_roundtrip(d.max_buffer_size);
    lemma_u32_le_roundtrip(d.min_width);
    lemma_u32_le_roundtrip(d.max_width);
    lemma_u32_le_roundtrip(d.min_height);
    lemma_u32_le_roundtrip(d.max_height);
    assert(b.subrange(0, 4) =~= u32_le_bytes(d.magic));
    assert(b.subrange(5, 9) =~= u32_le_bytes(d.flags));
    assert(b.subrange(10, 14) =~= u32_le_bytes(d.max_buffer_size));
    assert(b.subrange(14, 18) =~= u32_le_bytes(d.min_width));
    assert(b.subrange(18, 22) =~= u32_le_bytes(d.max_width));
    assert(b.subrange(22, 26) =~= u32_le_bytes(d.min_height));
    assert(b.subrange(26, 30) =~= u32_le_bytes(d.max_height));
}

/// A display mode is 24 bytes with every field at its fixed offset, least
/// significant byte first: the clock at 0, then the horizontal display,
/// sync start, sync end and total at 4, 6, 8 and 10, the vertical ones at
/// 12, 14, 16 and 18, and the flags at 20. Encoding writes each field there
/// and decoding reads each field from there.
pub proof fn lemma_display_mode_field_offsets(m: DisplayMode, s: Seq<u8>)
    requires
        s.len() >= 24,
    ensures
        ({
            let b = display_mode_bytes(m);
            &&& b.len() == 24
            &&& b[0] + 256 * b[1] + 65536 * b[2] + 16777216 * b[3] == m.clock
            &&& b[4] + 256 * b[5] == m.hdisplay
            &&& b[6] + 256 * b[7] == m.hsync_start
            &&& b[8] + 256 * b[9] == m.hsync_end
            &&& b[10] + 256 * b[11] == m.htotal
            &&& b[12] + 256 * b[13] == m.vdisplay
            &&& b[14] + 256 * b[15] == m.vsync_start
            &&& b[16] + 256 * b[17] == m.vsync_end
            &&& b[18] + 256 * b[19] == m.vtotal
            &&& b[20] + 256 * b[21] + 65536 * b[22] + 16777216 * b[23] == m.flags
        }),
        ({
            let p = parse_display_mode(s);
            &&& p.clock == s[0] + 256 * s[1] + 65536 * s[2] + 16777216 * s[3]
            &&& p.hdisplay == s[4] + 256 * s[5]
            &&& p.hsync_start == s[6] + 256 * s[7]
            &&& p.hsync_end == s[8] + 256 * s[9]
            &&& p.htotal == s[10] + 256 * s[11]
            &&& p.vdisplay == s[12] + 256 * s[13]
            &&& p.vsync_start == s[14] + 256 * s[15]
            &&& p.vsync_end == s[16] + 256 * s[17]
            &&& p.vtotal == s[18] + 256 * s[19]
            &&& p.flags == s[20] + 256 * s[21] + 65536 * s[22] + 16777216 * s[23]
        }),
{
    let b = display_mode_bytes(m);
    lemma_display_mode_roundtrip(m);
    assert(b.subrange(0, 4) =~= u32_le_bytes(m.clock));
    assert(b.subrange(4, 6) =~= u16_le_bytes(m.hdisplay));
    assert(b.subrange(6, 8) =~= u16_le_bytes(m.hsync_start));
    assert(b.subrange(8, 10) =~= u16_le_bytes(m.hsync_end));
    assert(b.subrange(10, 12) =~= u16_le_bytes(m.htotal));
    assert(b.subrange(12, 14) =~= u16_le_bytes(m.vdisplay));
    assert(b.subrange(14, 16) =~= u16_le_bytes(m.vsync_start));
    assert(b.subrange(16, 18) =~= u16_le_bytes(m.vsync_end));
    assert(b.subrange(18, 20) =~= u16_le_bytes(m.vtotal));
    assert(b.subrange(20, 24) =~= u32_le_bytes(m.flags));
    lemma_u32_le_roundtrip(m.clock);
    lemma_u16_le_roundtrip(m.hdisplay);
    lemma_u16_le_roundtrip(m.hsync_start);
    lemma_u16_le_roundtrip(m.hsync_end);
    lemma_u16_le_roundtrip(m.htotal);
    lemma_u16_le_roundtrip(m.vdisplay);
    lemma_u16_le_roundtrip(m.vsync_start);
    lemma_u16_le_roundtrip(m.vsync_end);
    lemma_u16_le_roundtrip(m.vtotal);
    lemma_u32_le_roundtrip(m.flags);
    let p = parse_display_mode(s);
    assert(s[0] + 256 * s[1] + 65536 * s[2] + 16777216 * s[3] <= u32::MAX);
    assert(s[4] + 256 * s[5] <= u16::MAX);
    assert(s[6] + 256 * s[7] <= u16::MAX);
    assert(s[8] + 256 * s[9] <= u16::MAX);
    assert(s[10] + 256 * s[11] <= u16::MAX);
    assert(s[12] + 256 * s[13] <= u16::MAX);
    assert(s[14] + 256 * s[15] <= u16::MAX);
    assert(s[16] + 256 * s[17] <= u16::MAX);
    assert(s[18] + 256 * s[19] <= u16::MAX);
    assert(s[20] + 256 * s[21] + 65536 * s[22] + 16777216 * s[23] <= u32::MAX);
}

/// The mode list sent for GET_CONNECTOR_MODES holds mode `i` as it is sent
/// to the host in bytes `24 * i` to `24 * i + 24`.
pub proof fn lemma_display_modes_bytes_slots(ms: Seq<DisplayMode>, i: int)
    requires
        0 <= i < ms.len(),
    ensures
        display_modes_bytes(ms).len() == 24 * ms.len(),
        display_modes_bytes(ms).subrange(24 * i, 24 * i + 24) == display_mode_bytes(wire_mode(ms[i])),
    decreases ms.len(),
{
    lemma_display_modes_bytes_len(ms);
    let rest = ms.drop_last();
    lemma_display_modes_bytes_len(rest);
    lemma_display_mode_roundtrip(wire_mode(ms.last()));
    let b = display_modes_bytes(ms);
    if i == ms.len() - 1 {
        assert(b.subrange(24 * i, 24 * i + 24) =~= display_mode_bytes(wire_mode(ms.last())));
    } else {
        lemma_display_modes_bytes_slots(rest, i);
        assert(rest[i] == ms[i]);
        assert(b.subrange(24 * i, 24 * i + 24) =~= display_modes_bytes(rest).subrange(24 * i, 24 * i + 24));
    }
}

/// A SET_BUFFER request is read from fixed offsets, least significant byte
/// first: x at 0, y at 4, width at 8, height at 12, length at 16, the
/// compression byte at 20 and the compressed length at 21.
pub proof fn lemma_set_buffer_field_offsets(s: Seq<u8>)
    requires
        s.len() >= 25,
    ensures
        ({
            let b = parse_set_buffer(s);
            &&& b.x == s[0] + 256 * s[1] + 65536 * s[2] + 16777216 * s[3]
            &&& b.y == s[4] + 256 * s[5] + 65536 * s[6] + 16777216 * s[7]
            &&& b.width == s[8] + 256 * s[9] + 65536 * s[10] + 16777216 * s[11]
            &&& b.height == s[12] + 256 * s[13] + 65536 * s[14] + 16777216 * s[15]
            &&& b.length == s[16] + 256 * s[17] + 65536 * s[18] + 16777216 * s[19]
            &&& b.compression == s[20]
            &&& b.compressed_length == s[21] + 256 * s[22] + 65536 * s[23] + 16777216 * s[24]
        }),
{
    assert(s[0] + 256 * s[1] + 65536 * s[2] + 16777216 * s[3] <= u32::MAX);
    assert(s[4] + 256 * s[5] + 65536 * s[6] + 16777216 * s[7] <= u32::MAX);
    assert(s[8] + 256 * s[9] + 65536 * s[10] + 16777216 * s[11] <= u32::MAX);
    assert(s[12] + 256 * s[13] + 65536 * s[14] + 16777216 * s[15] <= u32::MAX);
    assert(s[16] + 256 * s[17] + 65536 * s[18] + 16777216 * s[19] <= u32::MAX);
    assert(s[21] + 256 * s[22] + 65536 * s[23] + 16777216 * s[24] <= u32::MAX);
}

/// A state check is read as the 24-byte mode at 0 (its fields at the mode
/// offsets), the pixel format at 24 and the connector at 25.
pub proof fn lemma_state_check_header_field_offsets(s: Seq<u8>)
    requires
        s.len() >= 26,
    ensures
        ({
            let h = parse_state_check_header(s);
            &&& h.format == s[24]
            &&& h.connector == s[25]
            &&& h.mode.clock == s[0] + 256 * s[1] + 65536 * s[2] + 16777216 * s[3]
            &&& h.mode.hdisplay == s[4] + 256 * s[5]
            &&& h.mode.hsync_start == s[6] + 256 * s[7]
            &&& h.mode.hsync_end == s[8] + 256 * s[9]
            &&& h.mode.htotal == s[10] + 256 * s[11]
            &&& h.mode.vdisplay == s[12] + 256 * s[13]
            &&& h.mode.vsync_start == s[14] + 256 * s[15]
            &&& h.mode.vsync_end == s[16] + 256 * s[17]
            &&& h.mode.vtotal == s[18] + 256 * s[19]
            &&& h.mode.flags == s[20] + 256 * s[21] + 65536 * s[22] + 16777216 * s[23]
        }),
{
    let m = s.subrange(0, 24);
    lemma_display_mode_field_offsets(DisplayMode {
        clock: 0,
        hdisplay: 0,
        hsync_start: 0,
        hsync_end: 0,
        htotal: 0,
        vdisplay: 0,
        vsync_start: 0,
        vsync_end: 0,
        vtotal: 0,
        flags: 0,
    }, m);
}

/// Each connector descriptor is 5 bytes: the connector type, then its
/// flags least significant byte first; connector `i` starts at byte 5 * i.
pub proof fn lemma_connector_descriptor_field_offsets(cs: Seq<ConnectorDescriptor>, i: int)
    requires
        0 <= i < cs.len(),
    ensures
        ({
            let b = connector_descriptors_bytes(cs);
            &&& b.len() == 5 * cs.len()
            &&& b[5 * i] == cs[i].connector_type
            &&& b[5 * i + 1] + 256 * b[5 * i + 2] + 65536 * b[5 * i + 3] + 16777216 * b[5 * i + 4]
                == cs[i].flags
        }),
    decreases cs.len(),
{
    lemma_connector_descriptors_bytes_len(cs);
    let rest = cs.drop_last();
    lemma_connector_descriptors_bytes_len(rest);
    let b = connector_descriptors_bytes(cs);
    if i == cs.len() - 1 {
        lemma_u32_le_roundtrip(cs[i].flags);
        assert(b.subrange(5 * i, 5 * i + 5) =~= connector_descriptor_bytes(cs.last()));
        assert(b[5 * i + 1] == u32_le_bytes(cs[i].flags)[0]);
        assert(b[5 * i + 4] == u32_le_bytes(cs[i].flags)[3]);
    } else {
        lemma_connector_descriptor_field_offsets(rest, i);
        assert(rest[i] == cs[i]);
        let rb = connector_descriptors_bytes(rest);
        assert(b[5 * i] == rb[5 * i]);
        assert(b[5 * i + 1] == rb[5 * i + 1]);
        assert(b[5 * i + 2] == rb[5 * i + 2]);
        assert(b[5 * i + 3] == rb[5 * i + 3]);
        assert(b[5 * i + 4] == rb[5 * i + 4]);
    }
}

} // verus!
