//! Conversion of an integer between bases 2, 8, 10 and 16.

use crate::pretty::{Report, ReportLine};
use crate::radix::{IntErrorKind, format_i64_radix, i64_radix_text, parse_i64, parse_int};
use crate::text::{chars_of, string_from_chars, strip_prefix, without_prefix};
use vstd::prelude::*;

verus! {

/// The base in which the input number is written.
#[derive(Clone, Copy, Debug, PartialEq, Eq, Structural)]
pub enum Radix {
    Binary,
    Octal,
    Decimal,
    Hex,
}

pub open spec fn radix_value(r: Radix) -> nat {
    match r {
        Radix::Binary => 2,
        Radix::Octal => 8,
        Radix::Decimal => 10,
        Radix::Hex => 16,
    }
}

/// The name under which a base is printed.
pub open spec fn radix_label(r: Radix) -> Seq<char> {
    match r {
        Radix::Binary => "Binary(2)"@,
        Radix::Octal => "Octal(8)"@,
        Radix::Decimal => "Decimal(10)"@,
        Radix::Hex => "Hex(16)"@,
    }
}

impl Radix {
    pub fn radix(self) -> (res: u32)
        ensures
            res as nat == radix_value(self),
    {
        match self {
            Radix::Binary => 2,
            Radix::Octal => 8,
            Radix::Decimal => 10,
            Radix::Hex => 16,
        }
    }

    /// The printed name of the base, such as `Hex(16)`.
    pub fn label(self) -> (res: String)
        ensures
            res@ == radix_label(self),
    {
        match self {
            Radix::Binary => string_from_chars(&chars_of("Binary(2)")),
            Radix::Octal => string_from_chars(&chars_of("Octal(8)")),
            Radix::Decimal => string_from_chars(&chars_of("Decimal(10)")),
            Radix::Hex => string_from_chars(&chars_of("Hex(16)")),
        }
    }
}

/// Arguments of the base conversion: the number and the base it is written in.
pub struct Args {
    pub number: String,
    pub from: Radix,
}

/// The input without the optional `0b`/`0B` (binary) or `0x`/`0X` (hex) prefix.
pub open spec fn strip_radix_prefix(s: Seq<char>, from: Radix) -> Seq<char> {
    match from {
        Radix::Binary => match strip_prefix(s, "0b"@) {
            Some(t) => t,
            None => match strip_prefix(s, "0B"@) {
                Some(t) => t,
                None => s,
            },
        },
        Radix::Hex => match strip_prefix(s, "0x"@) {
            Some(t) => t,
            None => match strip_prefix(s, "0X"@) {
                Some(t) => t,
                None => s,
            },
        },
        _ => s,
    }
}

/// What the number text means in its base, as an `i64`.
pub open spec fn number_value(s: Seq<char>, from: Radix) -> Result<int, IntErrorKind> {
    parse_int(strip_radix_prefix(s, from), radix_value(from), i64::MIN as int, i64::MAX as int, true)
}

/// Removes `p1`, or failing that `p2`, from the front of `s`.
fn strip_either(s: &Vec<char>, p1: &str, p2: &str) -> (res: Vec<char>)
    ensures
        res@ == match strip_prefix(s@, p1@) {
            Some(t) => t,
            None => match strip_prefix(s@, p2@) {
                Some(t) => t,
                None => s@,
            },
        },
{
    match without_prefix(s, &chars_of(p1)) {
        Some(t) => t,
        None => match without_prefix(s, &chars_of(p2)) {
            Some(t) => t,
            None => s.clone(),
        },
    }
}

/// Reads `input` as an `i64` written in base `from`.
pub fn compute_num(input: &str, from: Radix) -> (res: Result<i64, IntErrorKind>)
    ensures
        match res {
            Ok(v) => number_value(input@, from) == Ok::<int, IntErrorKind>(v as int),
            Err(e) => number_value(input@, from) == Err::<int, IntErrorKind>(e),
        },
{
    let chars = chars_of(input);
    let cleaned = match from {
        Radix::Binary => strip_either(&chars, "0b", "0B"),
        Radix::Hex => strip_either(&chars, "0x", "0X"),
        _ => chars,
    };
    parse_i64(&cleaned, from.radix())
}

/// The radix text of `n` as a `String`.
fn radix_string(n: i64, radix: Radix) -> (res: String)
    ensures
        res@ == i64_radix_text(n as int, radix_value(radix)),
{
    string_from_chars(&format_i64_radix(n, radix.radix()))
}

/// A report line giving `n` in base `r`.
pub open spec fn base_line_ok(line: ReportLine, r: Radix, n: int) -> bool {
    match line {
        ReportLine::Pair { key, value, width } => key@ == radix_label(r) && value@ == i64_radix_text(
            n,
            radix_value(r),
        ) && width == 16,
        ReportLine::Text(_) => false,
    }
}

/// The four lines of the report: the number in bases 2, 8, 10 and 16.
pub open spec fn base_lines_ok(lines: Seq<ReportLine>, n: int) -> bool {
    &&& lines.len() == 4
    &&& base_line_ok(lines[0], Radix::Binary, n)
    &&& base_line_ok(lines[1], Radix::Octal, n)
    &&& base_line_ok(lines[2], Radix::Decimal, n)
    &&& base_line_ok(lines[3], Radix::Hex, n)
}

fn base_line(n: i64, r: Radix) -> (res: ReportLine)
    ensures
        base_line_ok(res, r, n as int),
{
    ReportLine::Pair { key: r.label(), value: radix_string(n, r), width: 16 }
}

/// Reads the number and reports it in the four bases; fails as the number
/// text fails to parse.
pub fn run(args: Args) -> (res: Result<Report, IntErrorKind>)
    ensures
        match res {
            Ok(report) => {
                &&& report.header@ == "Base Conversion"@
                &&& number_value(args.number@, args.from) is Ok
                &&& base_lines_ok(report.lines@, number_value(args.number@, args.from)->Ok_0)
            },
            Err(e) => number_value(args.number@, args.from) == Err::<int, IntErrorKind>(e),
        },
{
    let number = match compute_num(args.number.as_str(), args.from) {
        Ok(n) => n,
        Err(e) => return Err(e),
    };
    let mut lines: Vec<ReportLine> = Vec::new();
    lines.push(base_line(number, Radix::Binary));
    lines.push(base_line(number, Radix::Octal));
    lines.push(base_line(number, Radix::Decimal));
    lines.push(base_line(number, Radix::Hex));
    let header = string_from_chars(&chars_of("Base Conversion"));
    assert(base_lines_ok(lines@, number as int));
    Ok(Report { header, lines })
}

/// Whether `s` begins with `0` followed by `lower` or `upper`.
pub open spec fn has_marker(s: Seq<char>, lower: char, upper: char) -> bool {
    s.len() >= 2 && s[0] == '0' && (s[1] == lower || s[1] == upper)
}

/// How a number text is read: in base 16 only a leading `0x`/`0X`, in base 2
/// only a leading `0b`/`0B` is dropped, and then the rest (or, without such a
/// marker, the whole text, leading zeros included) is read in the base; bases
/// 8 and 10 read the whole text.
pub proof fn lemma_number_value_prefix(s: Seq<char>)
    ensures
        has_marker(s, 'x', 'X') ==> number_value(s, Radix::Hex) == parse_int(
            s.skip(2),
            16,
            i64::MIN as int,
            i64::MAX as int,
            true,
        ),
        !has_marker(s, 'x', 'X') ==> number_value(s, Radix::Hex) == parse_int(
            s,
            16,
            i64::MIN as int,
            i64::MAX as int,
            true,
        ),
        has_marker(s, 'b', 'B') ==> number_value(s, Radix::Binary) == parse_int(
            s.skip(2),
            2,
            i64::MIN as int,
            i64::MAX as int,
            true,
        ),
        !has_marker(s, 'b', 'B') ==> number_value(s, Radix::Binary) == parse_int(
            s,
            2,
            i64::MIN as int,
            i64::MAX as int,
            true,
        ),
        number_value(s, Radix::Octal) == parse_int(s, 8, i64::MIN as int, i64::MAX as int, true),
        number_value(s, Radix::Decimal) == parse_int(s, 10, i64::MIN as int, i64::MAX as int, true),
{
    reveal_strlit("0x");
    reveal_strlit("0X");
    reveal_strlit("0b");
    reveal_strlit("0B");
    if s.len() >= 2 {
        let h = s.take(2);
        assert(h[0] == s[0] && h[1] == s[1]);
        if s[0] == '0' && s[1] == 'x' {
            assert(h =~= "0x"@);
        }
        if s[0] == '0' && s[1] == 'X' {
            assert(h =~= "0X"@);
        }
        if s[0] == '0' && s[1] == 'b' {
            assert(h =~= "0b"@);
        }
        if s[0] == '0' && s[1] == 'B' {
            assert(h =~= "0B"@);
        }
    }
}

} // verus!
