//! The texts errors are reported with.
use vstd::prelude::*;
use crate::aio::{AioError, ExactAioState};
use crate::bulk::BulkReadError;
use crate::config::ConfigError;
use crate::endpoint::EndpointError;
use crate::events::EventError;
use crate::framebuffer::CopyError;
use crate::gud::DescriptorError;
use crate::protocol::{
    BufferError, CommitError, DisplayEnableError, EnableRequestError, GenerationError,
    PixelFormatError, StateCheckError,
};
use crate::scanout::EstimateError;
use crate::session::{BulkReceiveState, SessionError};
use crate::text::{
    debug_quoted, decimal, duration_text, hexadecimal, push_debug_quoted, push_decimal, push_duration, push_hexadecimal, push_signed_decimal, push_text,
    signed_decimal,
};
use crate::viewer::SharedFramebufferError;

verus! {

/// The value a raw read result has when read as a signed count.
pub open spec fn as_signed(n: usize) -> int {
    if n > isize::MAX {
        n - usize::MAX - 1
    } else {
        n as int
    }
}

/// A raw read result read as a signed count.
pub fn usize_as_signed(n: usize) -> (r: i64)
    ensures
        r == as_signed(n),
{
    if n > isize::MAX as usize {
        let below: usize = usize::MAX - n;
        assert(below <= i64::MAX);
        -(below as i64) - 1
    } else {
        n as i64
    }
}

/// The name a transfer state is reported with.
pub open spec fn aio_state_name(state: ExactAioState) -> Seq<char> {
    match state {
        ExactAioState::Idle => "Idle"@,
        ExactAioState::Arming => "Arming"@,
        ExactAioState::ArmedAwaitStatus => "ArmedAwaitStatus"@,
        ExactAioState::Receiving => "Receiving"@,
        ExactAioState::Completed => "Completed"@,
        ExactAioState::Poisoned => "Poisoned"@,
    }
}

impl ExactAioState {
    /// The name the state is reported with.
    pub fn name(&self) -> (r: String)
        ensures
            r@ == aio_state_name(*self),
    {
        let mut s = String::new();
        match *self {
            ExactAioState::Idle => push_text(&mut s, "Idle"),
            ExactAioState::Arming => push_text(&mut s, "Arming"),
            ExactAioState::ArmedAwaitStatus => push_text(&mut s, "ArmedAwaitStatus"),
            ExactAioState::Receiving => push_text(&mut s, "Receiving"),
            ExactAioState::Completed => push_text(&mut s, "Completed"),
            ExactAioState::Poisoned => push_text(&mut s, "Poisoned"),
        }
        assert(s@ =~= aio_state_name(*self));
        s
    }
}

/// The text a pixel format refusal is reported with.
pub open spec fn pixel_format_error_text(e: PixelFormatError) -> Seq<char> {
    match e {
        PixelFormatError::Unsupported { format } => "unsupported pixel format "@ + "0x"@ + hexadecimal(format as nat),
    }
}

impl PixelFormatError {
    /// The text the error is reported with.
    pub fn message(&self) -> (r: String)
        ensures
            r@ == pixel_format_error_text(*self),
    {
        let mut s = String::new();
        match *self {
            PixelFormatError::Unsupported { format } => {
            push_text(&mut s, "unsupported pixel format ");
            push_text(&mut s, "0x");
            push_hexadecimal(&mut s, format as u64);
            assert(s@ =~= "unsupported pixel format "@ + "0x"@ + hexadecimal(format as nat));
            },
        }
        s
    }
}

/// The text a state check refusal is reported with.
pub open spec fn state_check_error_text(e: StateCheckError) -> Seq<char> {
    match e {
        StateCheckError::TooShort { len } => "state check payload too short: got "@ + decimal(len as nat) + " bytes, expected at least 26"@,
        StateCheckError::InvalidPropertyLength { len } => "state check property data has invalid length "@ + decimal(len as nat),
        StateCheckError::NotConfigured => "state check validation is not configured"@,
        StateCheckError::UnsupportedConnector { connector } => "unsupported connector "@ + decimal(connector as nat),
        StateCheckError::UnsupportedFormat { format } => "unsupported pixel format "@ + "0x"@ + hexadecimal(format as nat),
        StateCheckError::UnsupportedMode { hdisplay, vdisplay } => "unsupported mode "@ + decimal(hdisplay as nat) + "x"@ + decimal(vdisplay as nat),
    }
}

impl StateCheckError {
    /// The text the error is reported with.
    pub fn message(&self) -> (r: String)
        ensures
            r@ == state_check_error_text(*self),
    {
        let mut s = String::new();
        match *self {
            StateCheckError::TooShort { len } => {
            push_text(&mut s, "state check payload too short: got ");
            push_decimal(&mut s, len as u64);
            push_text(&mut s, " bytes, expected at least 26");
            assert(s@ =~= "state check payload too short: got "@ + decimal(len as nat) + " bytes, expected at least 26"@);
            },
            StateCheckError::InvalidPropertyLength { len } => {
            push_text(&mut s, "state check property data has invalid length ");
            push_decimal(&mut s, len as u64);
            assert(s@ =~= "state check property data has invalid length "@ + decimal(len as nat));
            },
            StateCheckError::NotConfigured => {
            push_text(&mut s, "state check validation is not configured");
            assert(s@ =~= "state check validation is not configured"@);
            },
            StateCheckError::UnsupportedConnector { connector } => {
            push_text(&mut s, "unsupported connector ");
            push_decimal(&mut s, connector as u64);
            assert(s@ =~= "unsupported connector "@ + decimal(connector as nat));
            },
            StateCheckError::UnsupportedFormat { format } => {
            push_text(&mut s, "unsupported pixel format ");
            push_text(&mut s, "0x");
            push_hexadecimal(&mut s, format as u64);
            assert(s@ =~= "unsupported pixel format "@ + "0x"@ + hexadecimal(format as nat));
            },
            StateCheckError::UnsupportedMode { hdisplay, vdisplay } => {
            push_text(&mut s, "unsupported mode ");
            push_decimal(&mut s, hdisplay as u64);
            push_text(&mut s, "x");
            push_decimal(&mut s, vdisplay as u64);
            assert(s@ =~= "unsupported mode "@ + decimal(hdisplay as nat) + "x"@ + decimal(vdisplay as nat));
            },
        }
        s
    }
}

/// The text a generation counter failure is reported with.
pub open spec fn generation_error_text(e: GenerationError) -> Seq<char> {
    match e {
        GenerationError::Exhausted => "pending-state generation exhausted"@,
    }
}

impl GenerationError {
    /// The text the error is reported with.
    pub fn message(&self) -> (r: String)
        ensures
            r@ == generation_error_text(*self),
    {
        let mut s = String::new();
        match *self {
            GenerationError::Exhausted => {
            push_text(&mut s, "pending-state generation exhausted");
            assert(s@ =~= "pending-state generation exhausted"@);
            },
        }
        s
    }
}

/// The text a commit refusal is reported with.
pub open spec fn commit_error_text(e: CommitError) -> Seq<char> {
    match e {
        CommitError::NoPendingState => "no checked state available to commit"@,
    }
}

impl CommitError {
    /// The text the error is reported with.
    pub fn message(&self) -> (r: String)
        ensures
            r@ == commit_error_text(*self),
    {
        let mut s = String::new();
        match *self {
            CommitError::NoPendingState => {
            push_text(&mut s, "no checked state available to commit");
            assert(s@ =~= "no checked state available to commit"@);
            },
        }
        s
    }
}

/// The text a display enable refusal is reported with.
pub open spec fn display_enable_error_text(e: DisplayEnableError) -> Seq<char> {
    match e {
        DisplayEnableError::ControllerDisabled => "display cannot be enabled while controller is disabled"@,
        DisplayEnableError::NotCommitted => "display cannot be enabled before state commit"@,
    }
}

impl DisplayEnableError {
    /// The text the error is reported with.
    pub fn message(&self) -> (r: String)
        ensures
            r@ == display_enable_error_text(*self),
    {
        let mut s = String::new();
        match *self {
            DisplayEnableError::ControllerDisabled => {
            push_text(&mut s, "display cannot be enabled while controller is disabled");
            assert(s@ =~= "display cannot be enabled while controller is disabled"@);
            },
            DisplayEnableError::NotCommitted => {
            push_text(&mut s, "display cannot be enabled before state commit");
            assert(s@ =~= "display cannot be enabled before state commit"@);
            },
        }
        s
    }
}

/// The text a refused enable request is reported with.
pub open spec fn enable_request_error_text(e: EnableRequestError) -> Seq<char> {
    match e {
        EnableRequestError::InvalidLength { request, len } => request@ + " payload length "@ + decimal(len as nat) + " is invalid"@,
        EnableRequestError::InvalidValue { request, value } => request@ + " value "@ + decimal(value as nat) + " is invalid"@,
    }
}

impl EnableRequestError {
    /// The text the error is reported with.
    pub fn message(&self) -> (r: String)
        ensures
            r@ == enable_request_error_text(*self),
    {
        let mut s = String::new();
        match self {
            EnableRequestError::InvalidLength { request, len } => {
            push_text(&mut s, request.as_str());
            push_text(&mut s, " payload length ");
            push_decimal(&mut s, *len as u64);
            push_text(&mut s, " is invalid");
            assert(s@ =~= request@ + " payload length "@ + decimal(len as nat) + " is invalid"@);
            },
            EnableRequestError::InvalidValue { request, value } => {
            push_text(&mut s, request.as_str());
            push_text(&mut s, " value ");
            push_decimal(&mut s, *value as u64);
            push_text(&mut s, " is invalid");
            assert(s@ =~= request@ + " value "@ + decimal(value as nat) + " is invalid"@);
            },
        }
        s
    }
}

/// The text a SET_BUFFER refusal is reported with.
pub open spec fn buffer_error_text(e: BufferError) -> Seq<char> {
    match e {
        BufferError::NoCommittedState => "no committed state available for buffer upload"@,
        BufferError::ControllerDisabled => "controller is disabled"@,
        BufferError::DisplayDisabled => "display is disabled"@,
        BufferError::UnsupportedFormat { format } => "unsupported pixel format "@ + "0x"@ + hexadecimal(format as nat),
        BufferError::ZeroWidth => "buffer width must be greater than zero"@,
        BufferError::ZeroHeight => "buffer height must be greater than zero"@,
        BufferError::XOutOfRange { x, hdisplay } => "buffer x "@ + decimal(x as nat) + " exceeds mode width "@ + decimal(hdisplay as nat),
        BufferError::YOutOfRange { y, vdisplay } => "buffer y "@ + decimal(y as nat) + " exceeds mode height "@ + decimal(vdisplay as nat),
        BufferError::RectExceedsWidth { width, height, x, hdisplay } => "buffer rect "@ + decimal(width as nat) + "x"@ + decimal(height as nat) + " at x "@ + decimal(x as nat) + " exceeds mode width "@ + decimal(hdisplay as nat),
        BufferError::RectExceedsHeight { width, height, y, vdisplay } => "buffer rect "@ + decimal(width as nat) + "x"@ + decimal(height as nat) + " at y "@ + decimal(y as nat) + " exceeds mode height "@ + decimal(vdisplay as nat),
        BufferError::LengthOverflow => "buffer dimensions overflowed expected payload length"@,
        BufferError::LengthMismatch { length, expected } => "buffer length "@ + decimal(length as nat) + " does not match expected "@ + decimal(expected as nat),
        BufferError::UnexpectedCompressedLength { compressed_length } => "uncompressed buffer has unexpected compressed_length "@ + decimal(compressed_length as nat),
        BufferError::UnsupportedCompression { compression } => "unsupported compression "@ + decimal(compression as nat),
        BufferError::MissingCompressedLength => "compressed buffer must set compressed_length"@,
        BufferError::CompressedTooLarge { compressed_length, length } => "compressed buffer length "@ + decimal(compressed_length as nat) + " exceeds uncompressed length "@ + decimal(length as nat),
    }
}

impl BufferError {
    /// The text the error is reported with.
    pub fn message(&self) -> (r: String)
        ensures
            r@ == buffer_error_text(*self),
    {
        let mut s = String::new();
        match *self {
            BufferError::NoCommittedState => {
            push_text(&mut s, "no committed state available for buffer upload");
            assert(s@ =~= "no committed state available for buffer upload"@);
            },
            BufferError::ControllerDisabled => {
            push_text(&mut s, "controller is disabled");
            assert(s@ =~= "controller is disabled"@);
            },
            BufferError::DisplayDisabled => {
            push_text(&mut s, "display is disabled");
            assert(s@ =~= "display is disabled"@);
            },
            BufferError::UnsupportedFormat { format } => {
            push_text(&mut s, "unsupported pixel format ");
            push_text(&mut s, "0x");
            push_hexadecimal(&mut s, format as u64);
            assert(s@ =~= "unsupported pixel format "@ + "0x"@ + hexadecimal(format as nat));
            },
            BufferError::ZeroWidth => {
            push_text(&mut s, "buffer width must be greater than zero");
            assert(s@ =~= "buffer width must be greater than zero"@);
            },
            BufferError::ZeroHeight => {
            push_text(&mut s, "buffer height must be greater than zero");
            assert(s@ =~= "buffer height must be greater than zero"@);
            },
            BufferError::XOutOfRange { x, hdisplay } => {
            push_text(&mut s, "buffer x ");
            push_decimal(&mut s, x as u64);
            push_text(&mut s, " exceeds mode width ");
            push_decimal(&mut s, hdisplay as u64);
            assert(s@ =~= "buffer x "@ + decimal(x as nat) + " exceeds mode width "@ + decimal(hdisplay as nat));
            },
            BufferError::YOutOfRange { y, vdisplay } => {
            push_text(&mut s, "buffer y ");
            push_decimal(&mut s, y as u64);
            push_text(&mut s, " exceeds mode height ");
            push_decimal(&mut s, vdisplay as u64);
            assert(s@ =~= "buffer y "@ + decimal(y as nat) + " exceeds mode height "@ + decimal(vdisplay as nat));
            },
            BufferError::RectExceedsWidth { width, height, x, hdisplay } => {
            push_text(&mut s, "buffer rect ");
            push_decimal(&mut s, width as u64);
            push_text(&mut s, "x");
            push_decimal(&mut s, height as u64);
            push_text(&mut s, " at x ");
            push_decimal(&mut s, x as u64);
            push_text(&mut s, " exceeds mode width ");
            push_decimal(&mut s, hdisplay as u64);
            assert(s@ =~= "buffer rect "@ + decimal(width as nat) + "x"@ + decimal(height as nat) + " at x "@ + decimal(x as nat) + " exceeds mode width "@ + decimal(hdisplay as nat));
            },
            BufferError::RectExceedsHeight { width, height, y, vdisplay } => {
            push_text(&mut s, "buffer rect ");
            push_decimal(&mut s, width as u64);
            push_text(&mut s, "x");
            push_decimal(&mut s, height as u64);
            push_text(&mut s, " at y ");
            push_decimal(&mut s, y as u64);
            push_text(&mut s, " exceeds mode height ");
            push_decimal(&mut s, vdisplay as u64);
            assert(s@ =~= "buffer rect "@ + decimal(width as nat) + "x"@ + decimal(height as nat) + " at y "@ + decimal(y as nat) + " exceeds mode height "@ + decimal(vdisplay as nat));
            },
            BufferError::LengthOverflow => {
            push_text(&mut s, "buffer dimensions overflowed expected payload length");
            assert(s@ =~= "buffer dimensions overflowed expected payload length"@);
            },
            BufferError::LengthMismatch { length, expected } => {
            push_text(&mut s, "buffer length ");
            push_decimal(&mut s, length as u64);
            push_text(&mut s, " does not match expected ");
            push_decimal(&mut s, expected as u64);
            assert(s@ =~= "buffer length "@ + decimal(length as nat) + " does not match expected "@ + decimal(expected as nat));
            },
            BufferError::UnexpectedCompressedLength { compressed_length } => {
            push_text(&mut s, "uncompressed buffer has unexpected compressed_length ");
            push_decimal(&mut s, compressed_length as u64);
            assert(s@ =~= "uncompressed buffer has unexpected compressed_length "@ + decimal(compressed_length as nat));
            },
            BufferError::UnsupportedCompression { compression } => {
            push_text(&mut s, "unsupported compression ");
            push_decimal(&mut s, compression as u64);
            assert(s@ =~= "unsupported compression "@ + decimal(compression as nat));
            },
            BufferError::MissingCompressedLength => {
            push_text(&mut s, "compressed buffer must set compressed_length");
            assert(s@ =~= "compressed buffer must set compressed_length"@);
            },
            BufferError::CompressedTooLarge { compressed_length, length } => {
            push_text(&mut s, "compressed buffer length ");
            push_decimal(&mut s, compressed_length as u64);
            push_text(&mut s, " exceeds uncompressed length ");
            push_decimal(&mut s, length as u64);
            assert(s@ =~= "compressed buffer length "@ + decimal(compressed_length as nat) + " exceeds uncompressed length "@ + decimal(length as nat));
            },
        }
        s
    }
}

/// The text a framebuffer copy refusal is reported with.
pub open spec fn copy_error_text(e: CopyError) -> Seq<char> {
    match e {
        CopyError::ZeroBytesPerPixel => "bytes per pixel must be greater than zero"@,
        CopyError::EndRowOverflow => "framebuffer update end row overflow"@,
        CopyError::LineLengthOverflow => "framebuffer update line length overflow"@,
        CopyError::LineStartOverflow => "framebuffer update line start overflow"@,
        CopyError::PayloadLengthOverflow => "framebuffer update payload length overflow"@,
        CopyError::PayloadTooShort { got, expected } => "payload too short: got "@ + decimal(got as nat) + " bytes, expected at least "@ + decimal(expected as nat),
        CopyError::RowLengthOverflow => "framebuffer row length overflow"@,
        CopyError::PitchTooSmall { pitch, x, width, bpp } => "framebuffer pitch "@ + decimal(pitch as nat) + " is too small for update x="@ + decimal(x as nat) + " width="@ + decimal(width as nat) + " bpp="@ + decimal(bpp as nat),
        CopyError::DestinationLengthOverflow => "framebuffer update destination length overflow"@,
        CopyError::FramebufferTooShort { got, need, end_row } => "framebuffer too short: got "@ + decimal(got as nat) + " bytes, need at least "@ + decimal(need as nat) + " for update ending at row "@ + decimal(end_row as nat),
    }
}

impl CopyError {
    /// The text the error is reported with.
    pub fn message(&self) -> (r: String)
        ensures
            r@ == copy_error_text(*self),
    {
        let mut s = String::new();
        match *self {
            CopyError::ZeroBytesPerPixel => {
            push_text(&mut s, "bytes per pixel must be greater than zero");
            assert(s@ =~= "bytes per pixel must be greater than zero"@);
            },
            CopyError::EndRowOverflow => {
            push_text(&mut s, "framebuffer update end row overflow");
            assert(s@ =~= "framebuffer update end row overflow"@);
            },
            CopyError::LineLengthOverflow => {
            push_text(&mut s, "framebuffer update line length overflow");
            assert(s@ =~= "framebuffer update line length overflow"@);
            },
            CopyError::LineStartOverflow => {
            push_text(&mut s, "framebuffer update line start overflow");
            assert(s@ =~= "framebuffer update line start overflow"@);
            },
            CopyError::PayloadLengthOverflow => {
            push_text(&mut s, "framebuffer update payload length overflow");
            assert(s@ =~= "framebuffer update payload length overflow"@);
            },
            CopyError::PayloadTooShort { got, expected } => {
            push_text(&mut s, "payload too short: got ");
            push_decimal(&mut s, got as u64);
            push_text(&mut s, " bytes, expected at least ");
            push_decimal(&mut s, expected as u64);
            assert(s@ =~= "payload too short: got "@ + decimal(got as nat) + " bytes, expected at least "@ + decimal(expected as nat));
            },
            CopyError::RowLengthOverflow => {
            push_text(&mut s, "framebuffer row length overflow");
            assert(s@ =~= "framebuffer row length overflow"@);
            },
            CopyError::PitchTooSmall { pitch, x, width, bpp } => {
            push_text(&mut s, "framebuffer pitch ");
            push_decimal(&mut s, pitch as u64);
            push_text(&mut s, " is too small for update x=");
            push_decimal(&mut s, x as u64);
            push_text(&mut s, " width=");
            push_decimal(&mut s, width as u64);
            push_text(&mut s, " bpp=");
            push_decimal(&mut s, bpp as u64);
            assert(s@ =~= "framebuffer pitch "@ + decimal(pitch as nat) + " is too small for update x="@ + decimal(x as nat) + " width="@ + decimal(width as nat) + " bpp="@ + decimal(bpp as nat));
            },
            CopyError::DestinationLengthOverflow => {
            push_text(&mut s, "framebuffer update destination length overflow");
            assert(s@ =~= "framebuffer update destination length overflow"@);
            },
            CopyError::FramebufferTooShort { got, need, end_row } => {
            push_text(&mut s, "framebuffer too short: got ");
            push_decimal(&mut s, got as u64);
            push_text(&mut s, " bytes, need at least ");
            push_decimal(&mut s, need as u64);
            push_text(&mut s, " for update ending at row ");
            push_decimal(&mut s, end_row as u64);
            assert(s@ =~= "framebuffer too short: got "@ + decimal(got as nat) + " bytes, need at least "@ + decimal(need as nat) + " for update ending at row "@ + decimal(end_row as nat));
            },
        }
        s
    }
}

/// The text a failed payload read is reported with.
pub open spec fn bulk_read_error_text(e: BulkReadError) -> Seq<char> {
    match e {
        BulkReadError::ReadSizeOutOfRange { read_size } => "FunctionFS read size must be between 4096 and 65536 bytes, got "@ + decimal(read_size as nat),
        BulkReadError::ReadSizeUnaligned { read_size } => "FunctionFS read size must be a multiple of 512 bytes, got "@ + decimal(read_size as nat),
        BulkReadError::InternalReadSize { read_size } => "internal FunctionFS read size must be a non-zero multiple of 512 bytes, got "@ + decimal(read_size as nat),
        BulkReadError::EmptyPayload => "FunctionFS payload length must be non-zero"@,
        BulkReadError::InvalidCompletion { payload_seq, payload_len, read_size, read_index, received_bytes_before, remaining_before, request_bytes, result_bytes } => "invalid kernel FunctionFS read completion: payload_seq="@ + decimal(payload_seq as nat) + ", payload_len="@ + decimal(payload_len as nat) + ", read_size="@ + decimal(read_size as nat) + ", read_index="@ + decimal(read_index as nat) + ", received_bytes_before="@ + decimal(received_bytes_before as nat) + ", remaining_before="@ + decimal(remaining_before as nat) + ", request_bytes="@ + decimal(request_bytes as nat) + ", result_bytes_raw="@ + decimal(result_bytes as nat) + ", result_bytes_signed="@ + signed_decimal(as_signed(result_bytes)),
        BulkReadError::ShortRead { payload_seq, payload_len, read_size, read_index, received_bytes, request_bytes, result_bytes } => "short FunctionFS bulk OUT read: payload_seq="@ + decimal(payload_seq as nat) + ", payload_len="@ + decimal(payload_len as nat) + ", read_size="@ + decimal(read_size as nat) + ", read_index="@ + decimal(read_index as nat) + ", received_bytes="@ + decimal(received_bytes as nat) + ", request_bytes="@ + decimal(request_bytes as nat) + ", result_bytes="@ + decimal(result_bytes as nat),
    }
}

impl BulkReadError {
    /// The text the error is reported with.
    pub fn message(&self) -> (r: String)
        ensures
            r@ == bulk_read_error_text(*self),
    {
        let mut s = String::new();
        match *self {
            BulkReadError::ReadSizeOutOfRange { read_size } => {
            push_text(&mut s, "FunctionFS read size must be between 4096 and 65536 bytes, got ");
            push_decimal(&mut s, read_size as u64);
            assert(s@ =~= "FunctionFS read size must be between 4096 and 65536 bytes, got "@ + decimal(read_size as nat));
            },
            BulkReadError::ReadSizeUnaligned { read_size } => {
            push_text(&mut s, "FunctionFS read size must be a multiple of 512 bytes, got ");
            push_decimal(&mut s, read_size as u64);
            assert(s@ =~= "FunctionFS read size must be a multiple of 512 bytes, got "@ + decimal(read_size as nat));
            },
            BulkReadError::InternalReadSize { read_size } => {
            push_text(&mut s, "internal FunctionFS read size must be a non-zero multiple of 512 bytes, got ");
            push_decimal(&mut s, read_size as u64);
            assert(s@ =~= "internal FunctionFS read size must be a non-zero multiple of 512 bytes, got "@ + decimal(read_size as nat));
            },
            BulkReadError::EmptyPayload => {
            push_text(&mut s, "FunctionFS payload length must be non-zero");
            assert(s@ =~= "FunctionFS payload length must be non-zero"@);
            },
            BulkReadError::InvalidCompletion { payload_seq, payload_len, read_size, read_index, received_bytes_before, remaining_before, request_bytes, result_bytes } => {
            push_text(&mut s, "invalid kernel FunctionFS read completion: payload_seq=");
            push_decimal(&mut s, payload_seq as u64);
            push_text(&mut s, ", payload_len=");
            push_decimal(&mut s, payload_len as u64);
            push_text(&mut s, ", read_size=");
            push_decimal(&mut s, read_size as u64);
            push_text(&mut s, ", read_index=");
            push_decimal(&mut s, read_index as u64);
            push_text(&mut s, ", received_bytes_before=");
            push_decimal(&mut s, received_bytes_before as u64);
            push_text(&mut s, ", remaining_before=");
            push_decimal(&mut s, remaining_before as u64);
            push_text(&mut s, ", request_bytes=");
            push_decimal(&mut s, request_bytes as u64);
            push_text(&mut s, ", result_bytes_raw=");
            push_decimal(&mut s, result_bytes as u64);
            push_text(&mut s, ", result_bytes_signed=");
            push_signed_decimal(&mut s, usize_as_signed(result_bytes));
            assert(s@ =~= "invalid kernel FunctionFS read completion: payload_seq="@ + decimal(payload_seq as nat) + ", payload_len="@ + decimal(payload_len as nat) + ", read_size="@ + decimal(read_size as nat) + ", read_index="@ + decimal(read_index as nat) + ", received_bytes_before="@ + decimal(received_bytes_before as nat) + ", remaining_before="@ + decimal(remaining_before as nat) + ", request_bytes="@ + decimal(request_bytes as nat) + ", result_bytes_raw="@ + decimal(result_bytes as nat) + ", result_bytes_signed="@ + signed_decimal(as_signed(result_bytes)));
            },
            BulkReadError::ShortRead { payload_seq, payload_len, read_size, read_index, received_bytes, request_bytes, result_bytes } => {
            push_text(&mut s, "short FunctionFS bulk OUT read: payload_seq=");
            push_decimal(&mut s, payload_seq as u64);
            push_text(&mut s, ", payload_len=");
            push_decimal(&mut s, payload_len as u64);
            push_text(&mut s, ", read_size=");
            push_decimal(&mut s, read_size as u64);
            push_text(&mut s, ", read_index=");
            push_decimal(&mut s, read_index as u64);
            push_text(&mut s, ", received_bytes=");
            push_decimal(&mut s, received_bytes as u64);
            push_text(&mut s, ", request_bytes=");
            push_decimal(&mut s, request_bytes as u64);
            push_text(&mut s, ", result_bytes=");
            push_decimal(&mut s, result_bytes as u64);
            assert(s@ =~= "short FunctionFS bulk OUT read: payload_seq="@ + decimal(payload_seq as nat) + ", payload_len="@ + decimal(payload_len as nat) + ", read_size="@ + decimal(read_size as nat) + ", read_index="@ + decimal(read_index as nat) + ", received_bytes="@ + decimal(received_bytes as nat) + ", request_bytes="@ + decimal(request_bytes as nat) + ", result_bytes="@ + decimal(result_bytes as nat));
            },
        }
        s
    }
}

/// The text a refused transfer step is reported with.
pub open spec fn aio_error_text(e: AioError) -> Seq<char> {
    match e {
        AioError::ArmWhileBusy { state } => "cannot arm exact FunctionFS AIO receive while transaction is "@ + aio_state_name(state),
        AioError::EmptyPayload => "exact FunctionFS AIO payload is empty"@,
        AioError::PayloadTooLarge { expected_bytes } => "exact FunctionFS AIO payload "@ + decimal(expected_bytes as nat) + " exceeds guarded maximum 67108864"@,
        AioError::AcceptOutsideArming { state } => "AIO acceptance outside Arming"@,
        AioError::RejectOutsideArming { state } => "AIO rejection outside Arming"@,
        AioError::StatusNotOk { status } => "armed SET_BUFFER received non-OK status "@ + decimal(status as nat),
        AioError::UnexpectedCompletion { state } => "exact FunctionFS AIO completion arrived while transaction was "@ + aio_state_name(state),
        AioError::CompletionLengthMismatch { expected, actual } => "exact FunctionFS AIO completion length mismatch: expected="@ + decimal(expected as nat) + ", actual="@ + decimal(actual as nat),
        AioError::IdleWithoutCompletion { state } => "return to Idle without completion"@,
    }
}

impl AioError {
    /// The text the error is reported with.
    pub fn message(&self) -> (r: String)
        ensures
            r@ == aio_error_text(*self),
    {
        let mut s = String::new();
        match *self {
            AioError::ArmWhileBusy { state } => {
            push_text(&mut s, "cannot arm exact FunctionFS AIO receive while transaction is ");
            let inner = state.name();
            push_text(&mut s, inner.as_str());
            assert(s@ =~= "cannot arm exact FunctionFS AIO receive while transaction is "@ + aio_state_name(state));
            },
            AioError::EmptyPayload => {
            push_text(&mut s, "exact FunctionFS AIO payload is empty");
            assert(s@ =~= "exact FunctionFS AIO payload is empty"@);
            },
            AioError::PayloadTooLarge { expected_bytes } => {
            push_text(&mut s, "exact FunctionFS AIO payload ");
            push_decimal(&mut s, expected_bytes as u64);
            push_text(&mut s, " exceeds guarded maximum 67108864");
            assert(s@ =~= "exact FunctionFS AIO payload "@ + decimal(expected_bytes as nat) + " exceeds guarded maximum 67108864"@);
            },
            AioError::AcceptOutsideArming { state } => {
            push_text(&mut s, "AIO acceptance outside Arming");
            assert(s@ =~= "AIO acceptance outside Arming"@);
            },
            AioError::RejectOutsideArming { state } => {
            push_text(&mut s, "AIO rejection outside Arming");
            assert(s@ =~= "AIO rejection outside Arming"@);
            },
            AioError::StatusNotOk { status } => {
            push_text(&mut s, "armed SET_BUFFER received non-OK status ");
            push_decimal(&mut s, status as u64);
            assert(s@ =~= "armed SET_BUFFER received non-OK status "@ + decimal(status as nat));
            },
            AioError::UnexpectedCompletion { state } => {
            push_text(&mut s, "exact FunctionFS AIO completion arrived while transaction was ");
            let inner = state.name();
            push_text(&mut s, inner.as_str());
            assert(s@ =~= "exact FunctionFS AIO completion arrived while transaction was "@ + aio_state_name(state));
            },
            AioError::CompletionLengthMismatch { expected, actual } => {
            push_text(&mut s, "exact FunctionFS AIO completion length mismatch: expected=");
            push_decimal(&mut s, expected as u64);
            push_text(&mut s, ", actual=");
            push_decimal(&mut s, actual as u64);
            assert(s@ =~= "exact FunctionFS AIO completion length mismatch: expected="@ + decimal(expected as nat) + ", actual="@ + decimal(actual as nat));
            },
            AioError::IdleWithoutCompletion { state } => {
            push_text(&mut s, "return to Idle without completion");
            assert(s@ =~= "return to Idle without completion"@);
            },
        }
        s
    }
}

/// The text a descriptor refusal is reported with.
pub open spec fn descriptor_error_text(e: DescriptorError) -> Seq<char> {
    match e {
        DescriptorError::UnsupportedFlags { flags } => "unsupported GUD display flags "@ + "0x"@ + hexadecimal(flags as nat),
        DescriptorError::NaturalSizeOverflow => "natural display descriptor maximum buffer size overflowed u32"@,
        DescriptorError::ZeroMaxBufferSize => "display descriptor maximum buffer size must be greater than zero"@,
        DescriptorError::MaxBufferSizeTooLarge { max_buffer_size, natural } => "display descriptor maximum buffer size "@ + decimal(max_buffer_size as nat) + " exceeds natural maximum "@ + decimal(natural as nat),
    }
}

impl DescriptorError {
    /// The text the error is reported with.
    pub fn message(&self) -> (r: String)
        ensures
            r@ == descriptor_error_text(*self),
    {
        let mut s = String::new();
        match *self {
            DescriptorError::UnsupportedFlags { flags } => {
            push_text(&mut s, "unsupported GUD display flags ");
            push_text(&mut s, "0x");
            push_hexadecimal(&mut s, flags as u64);
            assert(s@ =~= "unsupported GUD display flags "@ + "0x"@ + hexadecimal(flags as nat));
            },
            DescriptorError::NaturalSizeOverflow => {
            push_text(&mut s, "natural display descriptor maximum buffer size overflowed u32");
            assert(s@ =~= "natural display descriptor maximum buffer size overflowed u32"@);
            },
            DescriptorError::ZeroMaxBufferSize => {
            push_text(&mut s, "display descriptor maximum buffer size must be greater than zero");
            assert(s@ =~= "display descriptor maximum buffer size must be greater than zero"@);
            },
            DescriptorError::MaxBufferSizeTooLarge { max_buffer_size, natural } => {
            push_text(&mut s, "display descriptor maximum buffer size ");
            push_decimal(&mut s, max_buffer_size as u64);
            push_text(&mut s, " exceeds natural maximum ");
            push_decimal(&mut s, natural as u64);
            assert(s@ =~= "display descriptor maximum buffer size "@ + decimal(max_buffer_size as nat) + " exceeds natural maximum "@ + decimal(natural as nat));
            },
        }
        s
    }
}

/// The text a refused endpoint operation is reported with.
pub open spec fn endpoint_error_text(e: EndpointError) -> Seq<char> {
    match e {
        EndpointError::ExactAioInLegacyMode => "exact FunctionFS AIO is unavailable in legacy mode"@,
        EndpointError::PrearmAndExactAio => "old prearm and STATUS_ON_SET AIO cannot coexist"@,
        EndpointError::Aio(e) => aio_error_text(e),
        EndpointError::PrearmInLegacyMode => "prearmed FunctionFS reads are unavailable for the legacy 512-byte path"@,
        EndpointError::AlreadyPrearmed => "a FunctionFS bulk OUT read is already prearmed"@,
        EndpointError::ReadSize(e) => bulk_read_error_text(e),
        EndpointError::PrearmExceedsReadSize { request_bytes, read_size } => "prearmed FunctionFS read size "@ + decimal(request_bytes as nat) + " exceeds configured read ceiling "@ + decimal(read_size as nat),
        EndpointError::PrearmedReadMissing => "prearmed FunctionFS bulk OUT read disappeared"@,
        EndpointError::PayloadExceedsPrearm { payload_len, request_bytes } => "SET_BUFFER payload "@ + decimal(payload_len as nat) + " exceeds prearmed read size "@ + decimal(request_bytes as nat),
        EndpointError::PrearmedLengthMismatch { payload_seq, expected, request_bytes, result_bytes } => "prearmed FunctionFS read length mismatch: payload_seq="@ + decimal(payload_seq as nat) + ", expected="@ + decimal(expected as nat) + ", request_bytes="@ + decimal(request_bytes as nat) + ", result_bytes="@ + decimal(result_bytes as nat),
        EndpointError::Decompress => "lz4 decompress"@,
    }
}

impl EndpointError {
    /// The text the error is reported with.
    pub fn message(&self) -> (r: String)
        ensures
            r@ == endpoint_error_text(*self),
    {
        let mut s = String::new();
        match *self {
            EndpointError::ExactAioInLegacyMode => {
            push_text(&mut s, "exact FunctionFS AIO is unavailable in legacy mode");
            assert(s@ =~= "exact FunctionFS AIO is unavailable in legacy mode"@);
            },
            EndpointError::PrearmAndExactAio => {
            push_text(&mut s, "old prearm and STATUS_ON_SET AIO cannot coexist");
            assert(s@ =~= "old prearm and STATUS_ON_SET AIO cannot coexist"@);
            },
            EndpointError::Aio(e) => {
            let inner = e.message();
            push_text(&mut s, inner.as_str());
            assert(s@ =~= aio_error_text(e));
            },
            EndpointError::PrearmInLegacyMode => {
            push_text(&mut s, "prearmed FunctionFS reads are unavailable for the legacy 512-byte path");
            assert(s@ =~= "prearmed FunctionFS reads are unavailable for the legacy 512-byte path"@);
            },
            EndpointError::AlreadyPrearmed => {
            push_text(&mut s, "a FunctionFS bulk OUT read is already prearmed");
            assert(s@ =~= "a FunctionFS bulk OUT read is already prearmed"@);
            },
            EndpointError::ReadSize(e) => {
            let inner = e.message();
            push_text(&mut s, inner.as_str());
            assert(s@ =~= bulk_read_error_text(e));
            },
            EndpointError::PrearmExceedsReadSize { request_bytes, read_size } => {
            push_text(&mut s, "prearmed FunctionFS read size ");
            push_decimal(&mut s, request_bytes as u64);
            push_text(&mut s, " exceeds configured read ceiling ");
            push_decimal(&mut s, read_size as u64);
            assert(s@ =~= "prearmed FunctionFS read size "@ + decimal(request_bytes as nat) + " exceeds configured read ceiling "@ + decimal(read_size as nat));
            },
            EndpointError::PrearmedReadMissing => {
            push_text(&mut s, "prearmed FunctionFS bulk OUT read disappeared");
            assert(s@ =~= "prearmed FunctionFS bulk OUT read disappeared"@);
            },
            EndpointError::PayloadExceedsPrearm { payload_len, request_bytes } => {
            push_text(&mut s, "SET_BUFFER payload ");
            push_decimal(&mut s, payload_len as u64);
            push_text(&mut s, " exceeds prearmed read size ");
            push_decimal(&mut s, request_bytes as u64);
            assert(s@ =~= "SET_BUFFER payload "@ + decimal(payload_len as nat) + " exceeds prearmed read size "@ + decimal(request_bytes as nat));
            },
            EndpointError::PrearmedLengthMismatch { payload_seq, expected, request_bytes, result_bytes } => {
            push_text(&mut s, "prearmed FunctionFS read length mismatch: payload_seq=");
            push_decimal(&mut s, payload_seq as u64);
            push_text(&mut s, ", expected=");
            push_decimal(&mut s, expected as u64);
            push_text(&mut s, ", request_bytes=");
            push_decimal(&mut s, request_bytes as u64);
            push_text(&mut s, ", result_bytes=");
            push_decimal(&mut s, result_bytes as u64);
            assert(s@ =~= "prearmed FunctionFS read length mismatch: payload_seq="@ + decimal(payload_seq as nat) + ", expected="@ + decimal(expected as nat) + ", request_bytes="@ + decimal(request_bytes as nat) + ", result_bytes="@ + decimal(result_bytes as nat));
            },
            EndpointError::Decompress => {
            push_text(&mut s, "lz4 decompress");
            assert(s@ =~= "lz4 decompress"@);
            },
        }
        s
    }
}

/// The text a unreadable request is reported with.
pub open spec fn event_error_text(e: EventError) -> Seq<char> {
    match e {
        EventError::MalformedSetBuffer { len } => "deserialize set buffer: got "@ + decimal(len as nat) + " bytes, expected at least 25"@,
    }
}

impl EventError {
    /// The text the error is reported with.
    pub fn message(&self) -> (r: String)
        ensures
            r@ == event_error_text(*self),
    {
        let mut s = String::new();
        match *self {
            EventError::MalformedSetBuffer { len } => {
            push_text(&mut s, "deserialize set buffer: got ");
            push_decimal(&mut s, len as u64);
            push_text(&mut s, " bytes, expected at least 25");
            assert(s@ =~= "deserialize set buffer: got "@ + decimal(len as nat) + " bytes, expected at least 25"@);
            },
        }
        s
    }
}

/// The text a shared framebuffer refusal is reported with.
pub open spec fn shared_framebuffer_error_text(e: SharedFramebufferError) -> Seq<char> {
    match e {
        SharedFramebufferError::LengthOverflow => "shared framebuffer length overflow"@,
        SharedFramebufferError::TooShort { got, need } => "shared framebuffer too short: got "@ + decimal(got as nat) + " bytes, need at least "@ + decimal(need as nat),
    }
}

impl SharedFramebufferError {
    /// The text the error is reported with.
    pub fn message(&self) -> (r: String)
        ensures
            r@ == shared_framebuffer_error_text(*self),
    {
        let mut s = String::new();
        match *self {
            SharedFramebufferError::LengthOverflow => {
            push_text(&mut s, "shared framebuffer length overflow");
            assert(s@ =~= "shared framebuffer length overflow"@);
            },
            SharedFramebufferError::TooShort { got, need } => {
            push_text(&mut s, "shared framebuffer too short: got ");
            push_decimal(&mut s, got as u64);
            push_text(&mut s, " bytes, need at least ");
            push_decimal(&mut s, need as u64);
            assert(s@ =~= "shared framebuffer too short: got "@ + decimal(got as nat) + " bytes, need at least "@ + decimal(need as nat));
            },
        }
        s
    }
}

/// The text a memory estimate failure is reported with.
pub open spec fn estimate_error_text(e: EstimateError) -> Seq<char> {
    match e {
        EstimateError::ModeByteOverflow => "mode byte calculation overflow"@,
        EstimateError::EmptyPhysicalCatalog => "physical mode catalog is empty"@,
        EstimateError::EmptyAdvertisedCatalog => "advertised mode catalog is empty"@,
        EstimateError::ScanoutOverflow => "logical scanout memory estimate overflow"@,
        EstimateError::PeakOverflow => "logical peak memory estimate overflow"@,
        EstimateError::LiveBytesOverflow => "actual scanout live-byte accounting overflow"@,
    }
}

impl EstimateError {
    /// The text the error is reported with.
    pub fn message(&self) -> (r: String)
        ensures
            r@ == estimate_error_text(*self),
    {
        let mut s = String::new();
        match *self {
            EstimateError::ModeByteOverflow => {
            push_text(&mut s, "mode byte calculation overflow");
            assert(s@ =~= "mode byte calculation overflow"@);
            },
            EstimateError::EmptyPhysicalCatalog => {
            push_text(&mut s, "physical mode catalog is empty");
            assert(s@ =~= "physical mode catalog is empty"@);
            },
            EstimateError::EmptyAdvertisedCatalog => {
            push_text(&mut s, "advertised mode catalog is empty");
            assert(s@ =~= "advertised mode catalog is empty"@);
            },
            EstimateError::ScanoutOverflow => {
            push_text(&mut s, "logical scanout memory estimate overflow");
            assert(s@ =~= "logical scanout memory estimate overflow"@);
            },
            EstimateError::PeakOverflow => {
            push_text(&mut s, "logical peak memory estimate overflow");
            assert(s@ =~= "logical peak memory estimate overflow"@);
            },
            EstimateError::LiveBytesOverflow => {
            push_text(&mut s, "actual scanout live-byte accounting overflow");
            assert(s@ =~= "actual scanout live-byte accounting overflow"@);
            },
        }
        s
    }
}

/// The name a bulk receive state is reported with.
pub open spec fn bulk_state_name(state: BulkReceiveState) -> Seq<char> {
    match state {
        BulkReceiveState::Idle => "Idle"@,
        BulkReceiveState::InFlight => "InFlight"@,
        BulkReceiveState::Poisoned => "Poisoned"@,
        BulkReceiveState::ShuttingDown => "ShuttingDown"@,
    }
}

impl BulkReceiveState {
    /// The name the state is reported with.
    pub fn name(&self) -> (r: String)
        ensures
            r@ == bulk_state_name(*self),
    {
        let mut s = String::new();
        match *self {
            BulkReceiveState::Idle => push_text(&mut s, "Idle"),
            BulkReceiveState::InFlight => push_text(&mut s, "InFlight"),
            BulkReceiveState::Poisoned => push_text(&mut s, "Poisoned"),
            BulkReceiveState::ShuttingDown => push_text(&mut s, "ShuttingDown"),
        }
        assert(s@ =~= bulk_state_name(*self));
        s
    }
}

/// The text a bulk receive refusal or failure is reported with.
pub open spec fn session_error_text(e: SessionError) -> Seq<char> {
    match e {
        SessionError::Busy { state } => "FunctionFS bulk receive session is "@ + bulk_state_name(state)
            + "; a fresh Pi boot may be required"@,
        SessionError::ReceiveFailed => "FunctionFS bulk receive failed; session poisoned"@,
        SessionError::Late { elapsed_ns, deadline_ns } => "FunctionFS bulk receive exceeded the conservative "@
            + duration_text(deadline_ns as nat) + " safety deadline (elapsed "@ + duration_text(
            elapsed_ns as nat,
        ) + "); session poisoned"@,
        SessionError::StateChanged { state } => "FunctionFS bulk receive state changed unexpectedly to "@
            + bulk_state_name(state) + "; session poisoned"@,
    }
}

impl SessionError {
    /// The text the error is reported with.
    pub fn message(&self) -> (r: String)
        ensures
            r@ == session_error_text(*self),
    {
        let mut s = String::new();
        match *self {
            SessionError::Busy { state } => {
                push_text(&mut s, "FunctionFS bulk receive session is ");
                let name = state.name();
                push_text(&mut s, name.as_str());
                push_text(&mut s, "; a fresh Pi boot may be required");
                assert(s@ =~= session_error_text(*self));
            },
            SessionError::ReceiveFailed => {
                push_text(&mut s, "FunctionFS bulk receive failed; session poisoned");
            },
            SessionError::Late { elapsed_ns, deadline_ns } => {
                push_text(&mut s, "FunctionFS bulk receive exceeded the conservative ");
                push_duration(&mut s, deadline_ns);
                push_text(&mut s, " safety deadline (elapsed ");
                push_duration(&mut s, elapsed_ns);
                push_text(&mut s, "); session poisoned");
                assert(s@ =~= session_error_text(*self));
            },
            SessionError::StateChanged { state } => {
                push_text(&mut s, "FunctionFS bulk receive state changed unexpectedly to ");
                let name = state.name();
                push_text(&mut s, name.as_str());
                push_text(&mut s, "; session poisoned");
                assert(s@ =~= session_error_text(*self));
            },
        }
        s
    }
}

/// The text a refused setting is reported with.
pub open spec fn config_error_text(e: ConfigError) -> Seq<char> {
    match e {
        ConfigError::InvalidReadSize { raw } => "invalid GUD_FFS_READ_SIZE="@ + debug_quoted(raw@),
        ConfigError::InvalidCompression { raw } => "invalid GUD_TEST_COMPRESSION="@ + debug_quoted(
            raw@,
        ) + "; expected exactly \"lz4\" or \"none\""@,
        ConfigError::InvalidMaxBufferSize { raw } => "invalid GUD_TEST_MAX_BUFFER_SIZE="@
            + debug_quoted(raw@),
        ConfigError::ZeroMaxBufferSize => "GUD_TEST_MAX_BUFFER_SIZE must be greater than zero"@,
        ConfigError::InvalidDynamicModeMatch { raw } => "invalid GUD_TEST_DYNAMIC_MODE_MATCH="@
            + debug_quoted(raw@) + "; expected exactly \"1\""@,
        ConfigError::OutputModeNotWidthByHeight => "GUD_TEST_OUTPUT_MODE must use WIDTHxHEIGHT"@,
        ConfigError::InvalidOutputWidth { raw } => "invalid GUD_TEST_OUTPUT_MODE width in "@
            + debug_quoted(raw@),
        ConfigError::InvalidOutputHeight { raw } => "invalid GUD_TEST_OUTPUT_MODE height in "@
            + debug_quoted(raw@),
        ConfigError::ZeroOutputDimension => "GUD_TEST_OUTPUT_MODE dimensions must be greater than zero"@,
        ConfigError::InvalidTransferFormat { raw } => "invalid GUD_TRANSFER_FORMAT="@ + debug_quoted(
            raw@,
        ) + "; supported values: rgb565, rgb888, xrgb8888"@,
        ConfigError::ConflictingTestModes => "GUD_TEST_DYNAMIC_MODE_MATCH and GUD_TEST_OUTPUT_MODE are mutually exclusive"@,
        ConfigError::NoConnectorModes => "connected DRM connector has no modes"@,
        ConfigError::UnsupportedOutputMode { width, height } => "GUD_TEST_OUTPUT_MODE="@ + decimal(
            width as nat,
        ) + "x"@ + decimal(height as nat)
            + " is not supported by the connected DRM connector"@,
    }
}

impl ConfigError {
    /// The text the error is reported with.
    pub fn message(&self) -> (r: String)
        ensures
            r@ == config_error_text(*self),
    {
        let mut s = String::new();
        match self {
            ConfigError::InvalidReadSize { raw } => {
                push_text(&mut s, "invalid GUD_FFS_READ_SIZE=");
                push_debug_quoted(&mut s, raw.as_str());
            },
            ConfigError::InvalidCompression { raw } => {
                push_text(&mut s, "invalid GUD_TEST_COMPRESSION=");
                push_debug_quoted(&mut s, raw.as_str());
                push_text(&mut s, "; expected exactly \"lz4\" or \"none\"");
            },
            ConfigError::InvalidMaxBufferSize { raw } => {
                push_text(&mut s, "invalid GUD_TEST_MAX_BUFFER_SIZE=");
                push_debug_quoted(&mut s, raw.as_str());
            },
            ConfigError::ZeroMaxBufferSize => {
                push_text(&mut s, "GUD_TEST_MAX_BUFFER_SIZE must be greater than zero");
            },
            ConfigError::InvalidDynamicModeMatch { raw } => {
                push_text(&mut s, "invalid GUD_TEST_DYNAMIC_MODE_MATCH=");
                push_debug_quoted(&mut s, raw.as_str());
                push_text(&mut s, "; expected exactly \"1\"");
            },
            ConfigError::OutputModeNotWidthByHeight => {
                push_text(&mut s, "GUD_TEST_OUTPUT_MODE must use WIDTHxHEIGHT");
            },
            ConfigError::InvalidOutputWidth { raw } => {
                push_text(&mut s, "invalid GUD_TEST_OUTPUT_MODE width in ");
                push_debug_quoted(&mut s, raw.as_str());
            },
            ConfigError::InvalidOutputHeight { raw } => {
                push_text(&mut s, "invalid GUD_TEST_OUTPUT_MODE height in ");
                push_debug_quoted(&mut s, raw.as_str());
            },
            ConfigError::ZeroOutputDimension => {
                push_text(&mut s, "GUD_TEST_OUTPUT_MODE dimensions must be greater than zero");
            },
            ConfigError::InvalidTransferFormat { raw } => {
                push_text(&mut s, "invalid GUD_TRANSFER_FORMAT=");
                push_debug_quoted(&mut s, raw.as_str());
                push_text(&mut s, "; supported values: rgb565, rgb888, xrgb8888");
            },
            ConfigError::ConflictingTestModes => {
                push_text(
                    &mut s,
                    "GUD_TEST_DYNAMIC_MODE_MATCH and GUD_TEST_OUTPUT_MODE are mutually exclusive",
                );
            },
            ConfigError::NoConnectorModes => {
                push_text(&mut s, "connected DRM connector has no modes");
            },
            ConfigError::UnsupportedOutputMode { width, height } => {
                push_text(&mut s, "GUD_TEST_OUTPUT_MODE=");
                push_decimal(&mut s, *width as u64);
                push_text(&mut s, "x");
                push_decimal(&mut s, *height as u64);
                push_text(&mut s, " is not supported by the connected DRM connector");
            },
        }
        assert(s@ =~= config_error_text(*self));
        s
    }
}

} // verus!
