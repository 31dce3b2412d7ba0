//! Decimal and hexadecimal renderings of numbers, for paths and messages.
use vstd::prelude::*;
use vstd::string::{StrSliceExecFns, StringExecFns};

verus! {

/// The character of a decimal or hexadecimal digit `d`.
pub open spec fn digit_char(d: nat) -> char {
    if d < 10 {
        (48 + d) as char
    } else {
        (87 + d) as char
    }
}

/// The decimal digits of `n`, most significant first, without leading zeros.
pub open spec fn decimal(n: nat) -> Seq<char>
    decreases n,
{
    if n < 10 {
        seq![digit_char(n)]
    } else {
        decimal(n / 10).push(digit_char(n % 10))
    }
}

/// The lowercase hexadecimal digits of `n`, most significant first, without
/// leading zeros.
pub open spec fn hexadecimal(n: nat) -> Seq<char>
    decreases n,
{
    if n < 16 {
        seq![digit_char(n)]
    } else {
        hexadecimal(n / 16).push(digit_char(n % 16))
    }
}

/// The decimal rendering of a signed value: a minus sign before negative ones.
pub open spec fn signed_decimal(n: int) -> Seq<char> {
    if n < 0 {
        seq!['-'] + decimal((-n) as nat)
    } else {
        decimal(n as nat)
    }
}

/// `w` decimal digits of `v`, zero-padded on the left.
pub open spec fn padded_digits(v: nat, w: nat) -> Seq<char>
    decreases w,
{
    if w == 0 {
        seq![]
    } else {
        padded_digits(v / 10, (w - 1) as nat).push(digit_char(v % 10))
    }
}

/// The digits of the fraction `v / 10^w`, trailing zeros dropped.
pub open spec fn fraction_digits(v: nat, w: nat) -> Seq<char>
    decreases w,
{
    if w > 0 && v % 10 == 0 {
        fraction_digits(v / 10, (w - 1) as nat)
    } else {
        padded_digits(v, w)
    }
}

/// A whole number with a `w`-digit fraction part, then a unit: the point
/// and fraction appear only when the fraction is not zero.
pub open spec fn decimal_with_fraction(whole: nat, fraction: nat, w: nat, unit: Seq<char>) -> Seq<
    char,
> {
    decimal(whole) + (if fraction == 0 {
        seq![]
    } else {
        seq!['.'] + fraction_digits(fraction, w)
    }) + unit
}

/// A span of `ns` nanoseconds as Rust's `Debug` for durations writes it:
/// in the largest unit of s, ms, µs and ns that it reaches, with the exact
/// fraction of that unit.
pub open spec fn duration_text(ns: nat) -> Seq<char> {
    if ns >= 1_000_000_000 {
        decimal_with_fraction(ns / 1_000_000_000, ns % 1_000_000_000, 9, "s"@)
    } else if ns >= 1_000_000 {
        decimal_with_fraction(ns / 1_000_000, ns % 1_000_000, 6, "ms"@)
    } else if ns >= 1_000 {
        decimal_with_fraction(ns / 1_000, ns % 1_000, 3, "\u{b5}s"@)
    } else {
        decimal(ns) + "ns"@
    }
}

/// How Rust's `Debug` writes `c` inside a quoted string, for the characters
/// this crate's texts escape: quotes, backslashes, and the newline, return,
/// tab and nul characters; any other character stands for itself.
pub open spec fn escaped_char(c: char) -> Seq<char> {
    if c == '"' {
        seq!['\\', '"']
    } else if c == '\\' {
        seq!['\\', '\\']
    } else if c == '\n' {
        seq!['\\', 'n']
    } else if c == '\r' {
        seq!['\\', 'r']
    } else if c == '\t' {
        seq!['\\', 't']
    } else if c == '\0' {
        seq!['\\', '0']
    } else if is_control(c) {
        seq!['\\', 'u', '{'] + hexadecimal(c as nat) + seq!['}']
    } else {
        seq![c]
    }
}

/// Whether `c` is a C0 or C1 control character, or DEL.
pub open spec fn is_control(c: char) -> bool {
    (c as u32) < 0x20 || (0x7f <= (c as u32) && (c as u32) < 0xa0)
}

/// `s` with each character escaped.
pub open spec fn escaped(s: Seq<char>) -> Seq<char>
    decreases s.len(),
{
    if s.len() == 0 {
        seq![]
    } else {
        escaped(s.drop_last()) + escaped_char(s.last())
    }
}

/// `s` quoted as Rust's `Debug` writes a string.
pub open spec fn debug_quoted(s: Seq<char>) -> Seq<char> {
    seq!['"'] + escaped(s) + seq!['"']
}

/// The bytes of an ASCII text.
pub open spec fn ascii_bytes(s: Seq<char>) -> Seq<u8> {
    s.map_values(|c: char| c as u8)
}

/// The text of one digit.
fn digit_str(d: u64) -> (r: &'static str)
    requires
        d < 16,
    ensures
        r@ == seq![digit_char(d as nat)],
{
    proof {
        reveal_strlit("0");
        reveal_strlit("1");
        reveal_strlit("2");
        reveal_strlit("3");
        reveal_strlit("4");
        reveal_strlit("5");
        reveal_strlit("6");
        reveal_strlit("7");
        reveal_strlit("8");
        reveal_strlit("9");
        reveal_strlit("a");
        reveal_strlit("b");
        reveal_strlit("c");
        reveal_strlit("d");
        reveal_strlit("e");
        reveal_strlit("f");
    }
    match d {
        0 => "0",
        1 => "1",
        2 => "2",
        3 => "3",
        4 => "4",
        5 => "5",
        6 => "6",
        7 => "7",
        8 => "8",
        9 => "9",
        10 => "a",
        11 => "b",
        12 => "c",
        13 => "d",
        14 => "e",
        _ => "f",
    }
}

/// Appends the decimal digits of `n`.
pub fn push_decimal(s: &mut String, n: u64)
    ensures
        final(s)@ == old(s)@ + decimal(n as nat),
    decreases n,
{
    if n >= 10 {
        push_decimal(s, n / 10);
    }
    s.append(digit_str(n % 10));
    assert(s@ =~= old(s)@ + decimal(n as nat));
}

/// Appends the lowercase hexadecimal digits of `n`.
pub fn push_hexadecimal(s: &mut String, n: u64)
    ensures
        final(s)@ == old(s)@ + hexadecimal(n as nat),
    decreases n,
{
    if n >= 16 {
        push_hexadecimal(s, n / 16);
    }
    s.append(digit_str(n % 16));
    assert(s@ =~= old(s)@ + hexadecimal(n as nat));
}

/// Appends the decimal rendering of a signed value.
pub fn push_signed_decimal(s: &mut String, n: i64)
    ensures
        final(s)@ == old(s)@ + signed_decimal(n as int),
{
    if n < 0 {
        proof {
            reveal_strlit("-");
        }
        s.append("-");
        let magnitude: u64 = if n == i64::MIN {
            0x8000_0000_0000_0000u64
        } else {
            (-n) as u64
        };
        push_decimal(s, magnitude);
        assert(s@ =~= old(s)@ + signed_decimal(n as int));
    } else {
        push_decimal(s, n as u64);
    }
}

/// Appends the decimal digits of a wide `n`.
pub fn push_wide_decimal(s: &mut String, n: u128)
    ensures
        final(s)@ == old(s)@ + decimal(n as nat),
    decreases n,
{
    if n >= 10 {
        push_wide_decimal(s, n / 10);
    }
    s.append(digit_str((n % 10) as u64));
    assert(s@ =~= old(s)@ + decimal(n as nat));
}

/// Appends `w` decimal digits of `v`, zero-padded on the left.
fn push_padded_digits(s: &mut String, v: u64, w: u64)
    ensures
        final(s)@ == old(s)@ + padded_digits(v as nat, w as nat),
    decreases w,
{
    if w > 0 {
        push_padded_digits(s, v / 10, w - 1);
        s.append(digit_str(v % 10));
        assert(s@ =~= old(s)@ + padded_digits(v as nat, w as nat));
    } else {
        assert(s@ =~= old(s)@ + padded_digits(v as nat, w as nat));
    }
}

/// Appends the digits of the fraction `v / 10^w`, trailing zeros dropped.
fn push_fraction_digits(s: &mut String, v: u64, w: u64)
    ensures
        final(s)@ == old(s)@ + fraction_digits(v as nat, w as nat),
    decreases w,
{
    if w > 0 && v % 10 == 0 {
        push_fraction_digits(s, v / 10, w - 1);
    } else {
        push_padded_digits(s, v, w);
    }
}

/// Appends a span of `ns` nanoseconds as Rust's `Debug` for durations
/// writes it.
pub fn push_duration(s: &mut String, ns: u128)
    ensures
        final(s)@ == old(s)@ + duration_text(ns as nat),
{
    proof {
        reveal_strlit("s");
        reveal_strlit("ms");
        reveal_strlit("\u{b5}s");
        reveal_strlit("ns");
        reveal_strlit(".");
    }
    if ns < 1_000 {
        push_wide_decimal(s, ns);
        s.append("ns");
        return;
    }
    let (whole, fraction, width, unit): (u128, u64, u64, &str) = if ns >= 1_000_000_000 {
        (ns / 1_000_000_000, (ns % 1_000_000_000) as u64, 9, "s")
    } else if ns >= 1_000_000 {
        (ns / 1_000_000, (ns % 1_000_000) as u64, 6, "ms")
    } else {
        (ns / 1_000, (ns % 1_000) as u64, 3, "\u{b5}s")
    };
    let ghost before = s@;
    push_wide_decimal(s, whole);
    if fraction != 0 {
        s.append(".");
        push_fraction_digits(s, fraction, width);
    }
    s.append(unit);
    assert(s@ =~= before + decimal_with_fraction(whole as nat, fraction as nat, width as nat, unit@));
}

/// Appends `text` quoted as Rust's `Debug` writes a string.
pub fn push_debug_quoted(s: &mut String, text: &str)
    ensures
        final(s)@ == old(s)@ + debug_quoted(text@),
{
    proof {
        reveal_strlit("\"");
        reveal_strlit("\\\"");
        reveal_strlit("\\\\");
        reveal_strlit("\\n");
        reveal_strlit("\\r");
        reveal_strlit("\\t");
        reveal_strlit("\\0");
    }
    s.append("\"");
    let n = text.unicode_len();
    let mut i: usize = 0;
    assert(text@.take(0) =~= Seq::<char>::empty());
    while i < n
        invariant
            n == text@.len(),
            0 <= i <= n,
            s@ == old(s)@ + seq!['"'] + escaped(text@.take(i as int)),
        decreases n - i,
    {
        let c = text.get_char(i);
        let ghost before = s@;
        proof {
            reveal_strlit("\\\"");
            reveal_strlit("\\\\");
            reveal_strlit("\\n");
            reveal_strlit("\\r");
            reveal_strlit("\\t");
            reveal_strlit("\\0");
        }
        if c == '"' {
            s.append("\\\"");
        } else if c == '\\' {
            s.append("\\\\");
        } else if c == '\n' {
            s.append("\\n");
        } else if c == '\r' {
            s.append("\\r");
        } else if c == '\t' {
            s.append("\\t");
        } else if c == '\0' {
            s.append("\\0");
        } else if (c as u32) < 0x20 || (0x7f <= (c as u32) && (c as u32) < 0xa0) {
            proof {
                reveal_strlit("\\u{");
                reveal_strlit("}");
            }
            s.append("\\u{");
            push_hexadecimal(s, c as u64);
            s.append("}");
        } else {
            let piece = text.substring_char(i, i + 1);
            assert(piece@ =~= seq![c]);
            s.append(piece);
        }
        assert(s@ =~= before + escaped_char(c));
        assert(text@.take(i + 1).drop_last() =~= text@.take(i as int));
        assert(text@.take(i + 1).last() == c);
        assert(escaped(text@.take(i + 1)) == escaped(text@.take(i as int)) + escaped_char(c));
        assert(s@ =~= old(s)@ + seq!['"'] + escaped(text@.take(i + 1)));
        i = i + 1;
    }
    assert(text@.take(n as int) =~= text@);
    s.append("\"");
    assert(s@ =~= old(s)@ + debug_quoted(text@));
}

/// Appends the decimal digits of `n` as ASCII bytes.
pub fn push_decimal_bytes(v: &mut Vec<u8>, n: u64)
    ensures
        final(v)@ == old(v)@ + ascii_bytes(decimal(n as nat)),
    decreases n,
{
    if n >= 10 {
        push_decimal_bytes(v, n / 10);
    }
    let d = (n % 10) as u8;
    v.push(48u8 + d);
    assert(digit_char((n % 10) as nat) as u8 == 48 + d);
    assert(v@ =~= old(v)@ + ascii_bytes(decimal(n as nat)));
}

/// Appends a piece of text.
pub fn push_text(s: &mut String, t: &str)
    ensures
        final(s)@ == old(s)@ + t@,
{
    s.append(t);
}

} // verus!
