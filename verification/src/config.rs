//! The display service's settings as they are given in its environment:
//! each parser takes the setting's text (none when it is unset) and either
//! returns the value or says why the text was refused.
use vstd::prelude::*;
use vstd::string::StrSliceExecFns;
use crate::bulk::DEFAULT_FUNCTIONFS_BULK_OUT_READ_SIZE;
use crate::display::TransferFormat;
use crate::gud::GUD_COMPRESSION_LZ4;

verus! {

/// Whether `c` is a decimal digit.
pub open spec fn is_decimal_digit(c: char) -> bool {
    '0' <= c && c <= '9'
}

/// The value of a decimal digit.
pub open spec fn digit_value(c: char) -> nat {
    (c as int - '0' as int) as nat
}

/// The value of a run of decimal digits; none when a character is not one.
pub open spec fn digits_value(s: Seq<char>) -> Option<nat>
    decreases s.len(),
{
    if s.len() == 0 {
        Some(0)
    } else {
        match digits_value(s.drop_last()) {
            Some(v) => if is_decimal_digit(s.last()) {
                Some(v * 10 + digit_value(s.last()))
            } else {
                None
            },
            None => None,
        }
    }
}

/// The number Rust reads from `s` when parsing an unsigned integer: an
/// optional plus sign, then at least one decimal digit and nothing else.
pub open spec fn unsigned_value(s: Seq<char>) -> Option<nat> {
    let body = if s.len() > 0 && s[0] == '+' {
        s.skip(1)
    } else {
        s
    };
    if body.len() == 0 {
        None
    } else {
        digits_value(body)
    }
}

/// The number read from `s` when it is at most `max`.
pub open spec fn bounded_value(s: Seq<char>, max: nat) -> Option<nat> {
    match unsigned_value(s) {
        Some(v) => if v <= max {
            Some(v)
        } else {
            None
        },
        None => None,
    }
}

/// Digits after a run that is not all digits do not make it one.
proof fn lemma_digits_none_extends(p: Seq<char>, q: Seq<char>)
    requires
        digits_value(p) is None,
    ensures
        digits_value(p + q) is None,
    decreases q.len(),
{
    if q.len() > 0 {
        lemma_digits_none_extends(p, q.drop_last());
        assert((p + q).drop_last() =~= p + q.drop_last());
    }
}

/// More digits never make the value smaller.
proof fn lemma_digits_grow(p: Seq<char>, q: Seq<char>, v: nat)
    requires
        digits_value(p) == Some(v),
        digits_value(p + q) is Some,
    ensures
        digits_value(p + q).unwrap() >= v,
    decreases q.len(),
{
    if q.len() > 0 {
        assert((p + q).drop_last() =~= p + q.drop_last());
        lemma_digits_grow(p, q.drop_last(), v);
    } else {
        assert(p + q =~= p);
    }
}

/// Reads the unsigned number in characters `from` to `to` of `s`, when it
/// is at most `max`.
pub fn parse_bounded(s: &str, from: usize, to: usize, max: u64) -> (r: Option<u64>)
    requires
        from <= to <= s@.len(),
    ensures
        match bounded_value(s@.subrange(from as int, to as int), max as nat) {
            Some(v) => r == Some(v as u64),
            None => r is None,
        },
{
    let ghost text = s@.subrange(from as int, to as int);
    let mut i = from;
    if i < to && s.get_char(i) == '+' {
        i = i + 1;
    }
    let ghost body = if text.len() > 0 && text[0] == '+' {
        text.skip(1)
    } else {
        text
    };
    assert(body =~= s@.subrange(i as int, to as int));
    if i == to {
        return None;
    }
    let start = i;
    let mut value: u64 = 0;
    let mut overflow = false;
    assert(s@.subrange(start as int, start as int) =~= Seq::<char>::empty());
    while i < to
        invariant
            start <= i <= to,
            from <= start,
            to <= s@.len(),
            text == s@.subrange(from as int, to as int),
            body == (if text.len() > 0 && text[0] == '+' {
                text.skip(1)
            } else {
                text
            }),
            body.len() > 0,
            body == s@.subrange(start as int, to as int),
            !overflow ==> digits_value(s@.subrange(start as int, i as int)) == Some(value as nat),
            !overflow ==> value <= max,
            overflow ==> (digits_value(s@.subrange(start as int, i as int)) matches Some(v) && v > max),
        decreases to - i,
    {
        let c = s.get_char(i);
        let prefix = Ghost(s@.subrange(start as int, i as int));
        assert(s@.subrange(start as int, i + 1) =~= prefix@.push(c));
        assert(s@.subrange(start as int, i + 1).drop_last() =~= prefix@);
        if !('0' <= c && c <= '9') {
            proof {
                assert(digits_value(s@.subrange(start as int, i + 1)) is None);
                assert(body =~= s@.subrange(start as int, i + 1) + s@.subrange(i + 1, to as int));
                lemma_digits_none_extends(s@.subrange(start as int, i + 1), s@.subrange(i + 1, to as int));
                assert(unsigned_value(text) == digits_value(body));
            }
            return None;
        }
        let digit = (c as u32 - '0' as u32) as u64;
        if !overflow {
            if digit > max || value > (max - digit) / 10 {
                overflow = true;
                assert(value * 10 + digit > max) by (nonlinear_arith)
                    requires
                        digit > max || value > (max - digit) / 10,
                        digit <= max ==> max - digit >= 0,
                ;
            } else {
                assert(value * 10 + digit <= max) by (nonlinear_arith)
                    requires
                        value <= (max - digit) / 10,
                        digit <= max,
                ;
                value = value * 10 + digit;
            }
        }
        i = i + 1;
    }
    assert(unsigned_value(text) == digits_value(body));
    if overflow {
        None
    } else {
        Some(value)
    }
}

/// Whether two texts are the same.
pub fn same_text(a: &str, b: &str) -> (r: bool)
    ensures
        r == (a@ == b@),
{
    let n = a.unicode_len();
    if n != b.unicode_len() {
        return false;
    }
    let mut i: usize = 0;
    while i < n
        invariant
            n == a@.len(),
            n == b@.len(),
            0 <= i <= n,
            forall|j: int| 0 <= j < i ==> a@[j] == b@[j],
        decreases n - i,
    {
        if a.get_char(i) != b.get_char(i) {
            return false;
        }
        i = i + 1;
    }
    assert(a@ =~= b@);
    true
}

/// Whether Rust counts `c` as white space (the Unicode `White_Space`
/// property).
pub open spec fn is_white_space(c: char) -> bool {
    ('\u{9}' <= c && c <= '\u{d}') || c == ' ' || c == '\u{85}' || c == '\u{a0}' || c
        == '\u{1680}' || ('\u{2000}' <= c && c <= '\u{200a}') || c == '\u{2028}' || c
        == '\u{2029}' || c == '\u{202f}' || c == '\u{205f}' || c == '\u{3000}'
}

/// Whether `c` is white space.
fn white_space(c: char) -> (r: bool)
    ensures
        r == is_white_space(c),
{
    ('\u{9}' <= c && c <= '\u{d}') || c == ' ' || c == '\u{85}' || c == '\u{a0}' || c
        == '\u{1680}' || ('\u{2000}' <= c && c <= '\u{200a}') || c == '\u{2028}' || c
        == '\u{2029}' || c == '\u{202f}' || c == '\u{205f}' || c == '\u{3000}'
}

/// `s` without its leading white space.
pub open spec fn trim_start(s: Seq<char>) -> Seq<char>
    decreases s.len(),
{
    if s.len() > 0 && is_white_space(s[0]) {
        trim_start(s.skip(1))
    } else {
        s
    }
}

/// `s` without its trailing white space.
pub open spec fn trim_end(s: Seq<char>) -> Seq<char>
    decreases s.len(),
{
    if s.len() > 0 && is_white_space(s.last()) {
        trim_end(s.drop_last())
    } else {
        s
    }
}

/// `s` with ASCII capitals made small.
pub open spec fn ascii_lowercase(s: Seq<char>) -> Seq<char> {
    s.map_values(|c: char| if 'A' <= c && c <= 'Z' { ((c as u32) + 32) as char } else { c })
}

/// `s` as a keyword is compared: trimmed and in ASCII small letters.
pub open spec fn keyword_form(s: Seq<char>) -> Seq<char> {
    ascii_lowercase(trim_end(trim_start(s)))
}

/// Whether `raw`, trimmed and in ASCII small letters, is `keyword`.
pub fn matches_keyword(raw: &str, keyword: &str) -> (r: bool)
    ensures
        r == (keyword_form(raw@) == keyword@),
{
    let n = raw.unicode_len();
    let mut start: usize = 0;
    assert(raw@.skip(0) =~= raw@);
    while start < n && white_space(raw.get_char(start))
        invariant
            n == raw@.len(),
            0 <= start <= n,
            trim_start(raw@) == trim_start(raw@.skip(start as int)),
        decreases n - start,
    {
        assert(raw@.skip(start as int).skip(1) =~= raw@.skip(start + 1));
        start = start + 1;
    }
    assert(trim_start(raw@) == raw@.skip(start as int)) by {
        if start < n {
            assert(raw@.skip(start as int)[0] == raw@[start as int]);
        } else {
            assert(raw@.skip(start as int).len() == 0);
        }
    }
    let mut end: usize = n;
    while end > start && white_space(raw.get_char(end - 1))
        invariant
            n == raw@.len(),
            start <= end <= n,
            trim_end(raw@.skip(start as int)) == trim_end(raw@.subrange(start as int, end as int)),
        decreases end - start,
    {
        assert(raw@.subrange(start as int, end as int).drop_last() =~= raw@.subrange(
            start as int,
            end - 1,
        ));
        end = end - 1;
    }
    assert(raw@.skip(start as int) =~= raw@.subrange(start as int, n as int));
    let ghost trimmed = raw@.subrange(start as int, end as int);
    assert(trim_end(trim_start(raw@)) == trimmed) by {
        if end > start {
            assert(trimmed.last() == raw@[end - 1]);
        }
    }
    let k = keyword.unicode_len();
    if end - start != k {
        assert(keyword_form(raw@).len() == end - start);
        return false;
    }
    let mut i: usize = 0;
    while i < k
        invariant
            n == raw@.len(),
            start <= end <= n,
            k == keyword@.len(),
            end - start == k,
            trimmed == raw@.subrange(start as int, end as int),
            keyword_form(raw@) == ascii_lowercase(trimmed),
            0 <= i <= k,
            forall|j: int| 0 <= j < i ==> ascii_lowercase(trimmed)[j] == keyword@[j],
        decreases k - i,
    {
        let c = raw.get_char(start + i);
        let lower = if 'A' <= c && c <= 'Z' {
            ((c as u8) + 32) as char
        } else {
            c
        };
        assert(ascii_lowercase(trimmed)[i as int] == lower);
        if lower != keyword.get_char(i) {
            assert(ascii_lowercase(trimmed)[i as int] != keyword@[i as int]);
            return false;
        }
        i = i + 1;
    }
    assert(ascii_lowercase(trimmed) =~= keyword@);
    true
}

/// Why a setting was refused.
#[derive(Clone, Debug, PartialEq, Eq)]
pub enum ConfigError {
    InvalidReadSize { raw: String },
    InvalidCompression { raw: String },
    InvalidMaxBufferSize { raw: String },
    ZeroMaxBufferSize,
    InvalidDynamicModeMatch { raw: String },
    OutputModeNotWidthByHeight,
    InvalidOutputWidth { raw: String },
    InvalidOutputHeight { raw: String },
    ZeroOutputDimension,
    InvalidTransferFormat { raw: String },
    ConflictingTestModes,
    NoConnectorModes,
    UnsupportedOutputMode { width: u16, height: u16 },
}

/// The bulk OUT read size: the default when unset, else the number given.
pub fn parse_functionfs_read_size(raw: Option<&str>) -> (r: Result<usize, ConfigError>)
    ensures
        match raw {
            None => r == Ok::<usize, ConfigError>(DEFAULT_FUNCTIONFS_BULK_OUT_READ_SIZE),
            Some(text) => match bounded_value(text@, usize::MAX as nat) {
                Some(v) => r == Ok::<usize, ConfigError>(v as usize),
                None => r matches Err(ConfigError::InvalidReadSize { raw: e }) && e@ == text@,
            },
        },
{
    let text = match raw {
        None => return Ok(DEFAULT_FUNCTIONFS_BULK_OUT_READ_SIZE),
        Some(t) => t,
    };
    assert(text@.subrange(0, text@.len() as int) =~= text@);
    match parse_bounded(text, 0, text.unicode_len(), usize::MAX as u64) {
        Some(v) => Ok(v as usize),
        None => Err(ConfigError::InvalidReadSize { raw: text.to_owned() }),
    }
}

/// The compression a test host is offered: LZ4 when unset, else exactly
/// "lz4" or "none".
pub fn parse_test_compression(raw: Option<&str>) -> (r: Result<u8, ConfigError>)
    ensures
        match raw {
            None => r == Ok::<u8, ConfigError>(GUD_COMPRESSION_LZ4),
            Some(text) => if text@ == "lz4"@ {
                r == Ok::<u8, ConfigError>(GUD_COMPRESSION_LZ4)
            } else if text@ == "none"@ {
                r == Ok::<u8, ConfigError>(0)
            } else {
                r matches Err(ConfigError::InvalidCompression { raw: e }) && e@ == text@
            },
        },
{
    let text = match raw {
        None => return Ok(GUD_COMPRESSION_LZ4),
        Some(t) => t,
    };
    if same_text(text, "lz4") {
        Ok(GUD_COMPRESSION_LZ4)
    } else if same_text(text, "none") {
        Ok(0)
    } else {
        Err(ConfigError::InvalidCompression { raw: text.to_owned() })
    }
}

/// The largest buffer a test host is offered: none when unset, else a
/// positive number.
pub fn parse_test_max_buffer_size(raw: Option<&str>) -> (r: Result<Option<u32>, ConfigError>)
    ensures
        match raw {
            None => r == Ok::<Option<u32>, ConfigError>(None),
            Some(text) => match bounded_value(text@, u32::MAX as nat) {
                None => r matches Err(ConfigError::InvalidMaxBufferSize { raw: e }) && e@ == text@,
                Some(v) => if v == 0 {
                    r == Err::<Option<u32>, ConfigError>(ConfigError::ZeroMaxBufferSize)
                } else {
                    r == Ok::<Option<u32>, ConfigError>(Some(v as u32))
                },
            },
        },
{
    let text = match raw {
        None => return Ok(None),
        Some(t) => t,
    };
    assert(text@.subrange(0, text@.len() as int) =~= text@);
    let value = match parse_bounded(text, 0, text.unicode_len(), u32::MAX as u64) {
        Some(v) => v as u32,
        None => return Err(ConfigError::InvalidMaxBufferSize { raw: text.to_owned() }),
    };
    if value == 0 {
        return Err(ConfigError::ZeroMaxBufferSize);
    }
    Ok(Some(value))
}

/// Whether a test asks for dynamic mode matching: false when unset, true
/// for exactly "1".
pub fn parse_test_dynamic_mode_match(raw: Option<&str>) -> (r: Result<bool, ConfigError>)
    ensures
        match raw {
            None => r == Ok::<bool, ConfigError>(false),
            Some(text) => if text@ == "1"@ {
                r == Ok::<bool, ConfigError>(true)
            } else {
                r matches Err(ConfigError::InvalidDynamicModeMatch { raw: e }) && e@ == text@
            },
        },
{
    let text = match raw {
        None => return Ok(false),
        Some(t) => t,
    };
    if same_text(text, "1") {
        Ok(true)
    } else {
        Err(ConfigError::InvalidDynamicModeMatch { raw: text.to_owned() })
    }
}

/// A scanout size a test asks for.
#[derive(Clone, Copy, Debug, PartialEq, Eq, Structural)]
pub struct TestOutputMode {
    pub width: u16,
    pub height: u16,
}

/// The first position of `c` in `s`, if any.
pub open spec fn first_position(s: Seq<char>, c: char) -> Option<int> {
    if exists|i: int| 0 <= i < s.len() && s[i] == c && forall|j: int| 0 <= j < i ==> s[j] != c {
        Some(choose|i: int| 0 <= i < s.len() && s[i] == c && forall|j: int| 0 <= j < i ==> s[j] != c)
    } else {
        None
    }
}

/// The first position of `c` in `s`, if any.
fn find_char(s: &str, c: char) -> (r: Option<usize>)
    ensures
        match first_position(s@, c) {
            Some(i) => r == Some(i as usize),
            None => r is None,
        },
{
    let n = s.unicode_len();
    let mut i: usize = 0;
    while i < n
        invariant
            n == s@.len(),
            0 <= i <= n,
            forall|j: int| 0 <= j < i ==> s@[j] != c,
        decreases n - i,
    {
        if s.get_char(i) == c {
            assert(s@[i as int] == c);
            let ghost w = choose|k: int| 0 <= k < s@.len() && s@[k] == c && forall|j: int| 0 <= j < k ==> s@[j] != c;
            assert(w == i) by {
                if w < i {
                    assert(s@[w] != c);
                } else if w > i {
                    assert(s@[i as int] != c);
                }
            }
            return Some(i);
        }
        i = i + 1;
    }
    None
}

/// The scanout size a test asks for: none when unset, else `WIDTHxHEIGHT`
/// with both positive, split at the first `x`.
pub fn parse_test_output_mode(raw: Option<&str>) -> (r: Result<Option<TestOutputMode>, ConfigError>)
    ensures
        match raw {
            None => r == Ok::<Option<TestOutputMode>, ConfigError>(None),
            Some(text) => match first_position(text@, 'x') {
                None => r == Err::<Option<TestOutputMode>, ConfigError>(
                    ConfigError::OutputModeNotWidthByHeight,
                ),
                Some(i) => match (
                    bounded_value(text@.subrange(0, i), u16::MAX as nat),
                    bounded_value(text@.subrange(i + 1, text@.len() as int), u16::MAX as nat),
                ) {
                    (None, _) => r matches Err(ConfigError::InvalidOutputWidth { raw: e }) && e@
                        == text@,
                    (Some(_), None) => r matches Err(ConfigError::InvalidOutputHeight { raw: e })
                        && e@ == text@,
                    (Some(w), Some(h)) => if w == 0 || h == 0 {
                        r == Err::<Option<TestOutputMode>, ConfigError>(
                            ConfigError::ZeroOutputDimension,
                        )
                    } else {
                        r == Ok::<Option<TestOutputMode>, ConfigError>(
                            Some(TestOutputMode { width: w as u16, height: h as u16 }),
                        )
                    },
                },
            },
        },
{
    let text = match raw {
        None => return Ok(None),
        Some(t) => t,
    };
    let split = match find_char(text, 'x') {
        Some(i) => i,
        None => return Err(ConfigError::OutputModeNotWidthByHeight),
    };
    let n = text.unicode_len();
    let width = match parse_bounded(text, 0, split, u16::MAX as u64) {
        Some(v) => v as u16,
        None => return Err(ConfigError::InvalidOutputWidth { raw: text.to_owned() }),
    };
    let height = match parse_bounded(text, split + 1, n, u16::MAX as u64) {
        Some(v) => v as u16,
        None => return Err(ConfigError::InvalidOutputHeight { raw: text.to_owned() }),
    };
    if width == 0 || height == 0 {
        return Err(ConfigError::ZeroOutputDimension);
    }
    Ok(Some(TestOutputMode { width, height }))
}

/// Dynamic mode matching and a fixed test scanout size exclude each other.
pub fn validate_test_mode_policy(
    dynamic_mode_match: bool,
    test_output_mode: Option<TestOutputMode>,
) -> (r: Result<(), ConfigError>)
    ensures
        r == if dynamic_mode_match && test_output_mode is Some {
            Err::<(), ConfigError>(ConfigError::ConflictingTestModes)
        } else {
            Ok::<(), ConfigError>(())
        },
{
    if dynamic_mode_match && test_output_mode.is_some() {
        return Err(ConfigError::ConflictingTestModes);
    }
    Ok(())
}

/// The first position holding a mode of `width` x `height`, if any.
pub open spec fn first_size_position(sizes: Seq<(u16, u16)>, width: u16, height: u16) -> Option<int> {
    if exists|i: int|
        0 <= i < sizes.len() && sizes[i] == (width, height) && forall|j: int|
            0 <= j < i ==> sizes[j] != (width, height) {
        Some(
            choose|i: int|
                0 <= i < sizes.len() && sizes[i] == (width, height) && forall|j: int|
                    0 <= j < i ==> sizes[j] != (width, height),
        )
    } else {
        None
    }
}

/// The connector mode to scan out, given the connector's mode sizes in
/// order: the first mode, or the first of the size a test asks for.
/// Returns its position.
pub fn select_output_mode(
    connector_mode_sizes: &[(u16, u16)],
    test_output_mode: Option<TestOutputMode>,
) -> (r: Result<usize, ConfigError>)
    ensures
        connector_mode_sizes@.len() == 0 ==> r == Err::<usize, ConfigError>(
            ConfigError::NoConnectorModes,
        ),
        connector_mode_sizes@.len() > 0 ==> match test_output_mode {
            None => r == Ok::<usize, ConfigError>(0),
            Some(m) => match first_size_position(connector_mode_sizes@, m.width, m.height) {
                Some(i) => r == Ok::<usize, ConfigError>(i as usize),
                None => r == Err::<usize, ConfigError>(
                    ConfigError::UnsupportedOutputMode { width: m.width, height: m.height },
                ),
            },
        },
{
    if connector_mode_sizes.len() == 0 {
        return Err(ConfigError::NoConnectorModes);
    }
    let requested = match test_output_mode {
        None => return Ok(0),
        Some(m) => m,
    };
    let mut i: usize = 0;
    while i < connector_mode_sizes.len()
        invariant
            0 <= i <= connector_mode_sizes@.len(),
            connector_mode_sizes@.len() > 0,
            test_output_mode == Some(requested),
            forall|j: int| 0 <= j < i ==> connector_mode_sizes@[j] != (requested.width, requested.height),
        decreases connector_mode_sizes@.len() - i,
    {
        let (w, h) = connector_mode_sizes[i];
        if w == requested.width && h == requested.height {
            let ghost target = (requested.width, requested.height);
            assert(connector_mode_sizes@[i as int] == target);
            assert(forall|j: int| 0 <= j < i ==> connector_mode_sizes@[j] != target);
            assert(exists|k: int|
                0 <= k < connector_mode_sizes@.len() && connector_mode_sizes@[k] == target
                    && forall|j: int| 0 <= j < k ==> connector_mode_sizes@[j] != target);
            let ghost k = choose|k: int|
                0 <= k < connector_mode_sizes@.len() && connector_mode_sizes@[k] == target
                    && forall|j: int| 0 <= j < k ==> connector_mode_sizes@[j] != target;
            assert(k == i) by {
                if k < i {
                    assert(connector_mode_sizes@[k] != target);
                } else if k > i {
                    assert(connector_mode_sizes@[i as int] != target);
                }
            }
            return Ok(i);
        }
        i = i + 1;
    }
    Err(ConfigError::UnsupportedOutputMode { width: requested.width, height: requested.height })
}

/// The connector mode advertised as preferred, given which modes the
/// display marks preferred: the first so marked, or the first mode.
pub fn advertised_preferred_mode_index(preferred: &[bool]) -> (r: usize)
    ensures
        (exists|i: int| 0 <= i < preferred@.len() && preferred@[i]) ==> preferred@[r as int]
            && forall|j: int| 0 <= j < r ==> !preferred@[j],
        !(exists|i: int| 0 <= i < preferred@.len() && preferred@[i]) ==> r == 0,
{
    let mut i: usize = 0;
    while i < preferred.len()
        invariant
            0 <= i <= preferred@.len(),
            forall|j: int| 0 <= j < i ==> !preferred@[j],
        decreases preferred@.len() - i,
    {
        if preferred[i] {
            return i;
        }
        i = i + 1;
    }
    0
}

/// The transfer format given: RGB565 when unset, else one of "rgb565",
/// "rgb888" or "xrgb8888", around white space and in any case.
pub open spec fn transfer_format_value(raw: Option<Seq<char>>) -> Option<TransferFormat> {
    match raw {
        None => Some(TransferFormat::Rgb565),
        Some(text) => if keyword_form(text) == "rgb565"@ {
            Some(TransferFormat::Rgb565)
        } else if keyword_form(text) == "rgb888"@ {
            Some(TransferFormat::Rgb888)
        } else if keyword_form(text) == "xrgb8888"@ {
            Some(TransferFormat::Xrgb8888)
        } else {
            None
        },
    }
}

impl TransferFormat {
    /// The transfer format a setting names.
    pub fn from_env_value(raw: Option<&str>) -> (r: Result<TransferFormat, ConfigError>)
        ensures
            match transfer_format_value(
                match raw {
                    Some(t) => Some(t@),
                    None => None,
                },
            ) {
                Some(f) => r == Ok::<TransferFormat, ConfigError>(f),
                None => raw matches Some(t) && r matches Err(
                    ConfigError::InvalidTransferFormat { raw: e },
                ) && e@ == t@,
            },
    {
        let text = match raw {
            None => return Ok(TransferFormat::Rgb565),
            Some(t) => t,
        };
        if matches_keyword(text, "rgb565") {
            Ok(TransferFormat::Rgb565)
        } else if matches_keyword(text, "rgb888") {
            Ok(TransferFormat::Rgb888)
        } else if matches_keyword(text, "xrgb8888") {
            Ok(TransferFormat::Xrgb8888)
        } else {
            Err(ConfigError::InvalidTransferFormat { raw: text.to_owned() })
        }
    }

    /// The format's name as settings write it.
    pub fn name(self) -> (r: &'static str)
        ensures
            r@ == match self {
                TransferFormat::Rgb565 => "rgb565"@,
                TransferFormat::Rgb888 => "rgb888"@,
                TransferFormat::Xrgb8888 => "xrgb8888"@,
            },
    {
        match self {
            TransferFormat::Rgb565 => "rgb565",
            TransferFormat::Rgb888 => "rgb888",
            TransferFormat::Xrgb8888 => "xrgb8888",
        }
    }

    /// The format's name as DRM writes it.
    pub fn drm_fourcc_name(self) -> (r: &'static str)
        ensures
            r@ == match self {
                TransferFormat::Rgb565 => "Rgb565"@,
                TransferFormat::Rgb888 => "Rgb888"@,
                TransferFormat::Xrgb8888 => "Xrgb8888"@,
            },
    {
        match self {
            TransferFormat::Rgb565 => "Rgb565",
            TransferFormat::Rgb888 => "Rgb888",
            TransferFormat::Xrgb8888 => "Xrgb8888",
        }
    }
}

/// When the diagnostic pattern is shown.
#[derive(Clone, Copy, Debug, PartialEq, Eq, Structural)]
pub enum PatternMode {
    Off,
    Startup,
    Hold,
    Usb,
}

/// The pattern mode a setting names: off when unset or unknown, else one
/// of "off", "startup", "hold" or "usb", around white space and in any
/// case.
pub open spec fn pattern_mode_value(raw: Option<Seq<char>>) -> PatternMode {
    match raw {
        None => PatternMode::Off,
        Some(text) => if keyword_form(text) == "startup"@ {
            PatternMode::Startup
        } else if keyword_form(text) == "hold"@ {
            PatternMode::Hold
        } else if keyword_form(text) == "usb"@ {
            PatternMode::Usb
        } else {
            PatternMode::Off
        },
    }
}

impl PatternMode {
    /// The pattern mode a setting names.
    pub fn from_value(raw: Option<&str>) -> (r: PatternMode)
        ensures
            r == pattern_mode_value(
                match raw {
                    Some(t) => Some(t@),
                    None => None,
                },
            ),
    {
        let text = match raw {
            None => return PatternMode::Off,
            Some(t) => t,
        };
        if matches_keyword(text, "startup") {
            PatternMode::Startup
        } else if matches_keyword(text, "hold") {
            PatternMode::Hold
        } else if matches_keyword(text, "usb") {
            PatternMode::Usb
        } else {
            PatternMode::Off
        }
    }

    /// Whether the pattern is shown at startup.
    pub fn uses_startup_pattern(self) -> (r: bool)
        ensures
            r == (self != PatternMode::Off),
    {
        match self {
            PatternMode::Off => false,
            _ => true,
        }
    }
}

} // verus!
