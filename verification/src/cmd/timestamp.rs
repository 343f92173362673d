//! Unix timestamps and civil date-times at a fixed UTC offset.

use crate::pretty::{Report, ReportLine};
use crate::radix::{
    decimal, digits_value, format_i64, is_digit, lemma_leading_zeros_value, lemma_radix_digits_value,
    radix_digits, zeros,
};
use crate::text::{chars_of, concat, is_ascii_digit, string_from_chars, subrange};
use vstd::prelude::*;

verus! {

/// The error `jiff` reports.
#[verifier::external_type_specification]
#[verifier::external_body]
pub struct ExJiffError(jiff::Error);

/// The earliest second `jiff` represents as a `Timestamp`.
pub open spec fn min_second() -> int {
    -377705023201
}

/// The latest second `jiff` represents as a `Timestamp`.
pub open spec fn max_second() -> int {
    253402207200
}

/// The largest offset from UTC, in seconds, that `jiff` accepts.
pub open spec fn max_offset_seconds() -> int {
    93599
}

/// The text `YYYY-MM-DD HH:MM:SS` of the civil date-time of the instant
/// `second` (plus `nanosecond`) at the fixed offset `offset_seconds`.
pub uninterp spec fn civil_datetime_text(second: int, nanosecond: int, offset_seconds: int) -> Seq<
    char,
>;

/// The fields (year, month, day, hour, minute, second, nanosecond) that
/// `jiff` reads from a text in the form `%Y-%m-%d %H:%M:%S`, or `None`.
pub uninterp spec fn civil_fields(text: Seq<char>) -> Option<(i16, i8, i8, i8, i8, i8, i32)>;

/// The Unix second of a civil date-time at the fixed offset
/// `offset_seconds`, or `None` when it lies outside what `jiff` represents.
pub uninterp spec fn civil_second(
    fields: (i16, i8, i8, i8, i8, i8, i32),
    offset_seconds: int,
) -> Option<i64>;

/// The civil date-time of an instant at a fixed offset, with `jiff`:
/// `Timestamp::new`, `Offset::from_seconds`, `TimeZone::fixed`,
/// `Zoned::new` and `strftime("%Y-%m-%d %H:%M:%S")`. Also returns the
/// fraction of a second of the timestamp and of the civil time.
/// Claimed, from `jiff`'s source and documentation: `Timestamp::new`
/// succeeds exactly for seconds in `min_second()..=max_second()` (the
/// fraction here is never negative); the text is `civil_datetime_text`; the
/// timestamp's fraction is the one given, moved into `-999_999_999..0` when
/// the second is negative; the civil fraction is the one given.
#[verifier::external_body]
pub(crate) fn zoned_text(second: i64, nanosecond: i32, offset_seconds: i32) -> (res: Result<
    (String, i32, i32),
    jiff::Error,
>)
    requires
        0 <= nanosecond < 1_000_000_000,
        -max_offset_seconds() <= offset_seconds <= max_offset_seconds(),
    ensures
        res is Ok <==> min_second() <= second <= max_second(),
        res matches Ok((text, ts_fraction, civil_fraction)) ==> {
            &&& text@ == civil_datetime_text(second as int, nanosecond as int, offset_seconds as int)
            &&& ts_fraction == (if second < 0 && nanosecond > 0 {
                nanosecond - 1_000_000_000
            } else {
                nanosecond as int
            })
            &&& civil_fraction == nanosecond
        },
{
    let ts = jiff::Timestamp::new(second, nanosecond)?;
    let tz = jiff::tz::TimeZone::fixed(jiff::tz::Offset::from_seconds(offset_seconds)?);
    let zdt = jiff::Zoned::new(ts, tz);
    Ok(
        (
            zdt.strftime("%Y-%m-%d %H:%M:%S").to_string(),
            zdt.timestamp().subsec_nanosecond(),
            zdt.subsec_nanosecond(),
        ),
    )
}

/// Reads a civil date-time with `DateTime::strptime("%Y-%m-%d %H:%M:%S", ..)`
/// of `jiff` and returns its fields. Claimed: the result is `civil_fields`
/// of the text.
#[verifier::external_body]
pub(crate) fn parse_civil(text: &str) -> (res: Result<(i16, i8, i8, i8, i8, i8, i32), jiff::Error>)
    ensures
        match res {
            Ok(f) => civil_fields(text@) == Some(f),
            Err(_) => civil_fields(text@) is None,
        },
{
    let dt = jiff::civil::DateTime::strptime("%Y-%m-%d %H:%M:%S", text)?;
    Ok(
        (dt.year(), dt.month(), dt.day(), dt.hour(), dt.minute(), dt.second(), dt.subsec_nanosecond()),
    )
}

/// The Unix second of a civil date-time at a fixed offset, with `jiff`:
/// `DateTime::new`, `DateTime::to_zoned` on `TimeZone::fixed`, then
/// `timestamp().as_second()`. Claimed: the result is `civil_second`, and a
/// second it returns lies in `jiff`'s range `min_second()..=max_second()`.
#[verifier::external_body]
pub(crate) fn civil_to_second(fields: (i16, i8, i8, i8, i8, i8, i32), offset_seconds: i32) -> (res: Result<
    i64,
    jiff::Error,
>)
    requires
        -max_offset_seconds() <= offset_seconds <= max_offset_seconds(),
    ensures
        match res {
            Ok(s) => civil_second(fields, offset_seconds as int) == Some(s) && min_second() <= s
                <= max_second(),
            Err(_) => civil_second(fields, offset_seconds as int) is None,
        },
{
    let (y, mo, d, h, mi, s, ns) = fields;
    let dt = jiff::civil::DateTime::new(y, mo, d, h, mi, s, ns)?;
    let tz = jiff::tz::TimeZone::fixed(jiff::tz::Offset::from_seconds(offset_seconds)?);
    Ok(dt.to_zoned(tz)?.timestamp().as_second())
}

/// The current time with `jiff::Timestamp::now()`, in whole seconds
/// (`as_second`). Claimed: a second within `jiff`'s range; which one depends
/// on the clock.
#[verifier::external_body]
pub(crate) fn now_second() -> (res: i64)
    ensures
        min_second() <= res <= max_second(),
{
    jiff::Timestamp::now().as_second()
}

/// The current time with `jiff::Timestamp::now()`, in milliseconds
/// (`as_millisecond`). Claimed: within `jiff`'s range; which value depends on
/// the clock.
#[verifier::external_body]
pub(crate) fn now_millisecond() -> (res: i64)
    ensures
        min_second() * 1000 <= res <= max_second() * 1000 + 999,
{
    jiff::Timestamp::now().as_millisecond()
}

/// Why a timestamp command failed.
pub enum TimestampError {
    /// The offset is not a whole number of hours in `-12..=14`.
    OffsetOutOfRange,
    /// `jiff` refused the value (out of range, or not in the expected format).
    Jiff(jiff::Error),
}

/// `UTC`, or `UTC` followed by the signed offset in hours (`UTC+8`, `UTC-5`).
pub open spec fn offset_name(hours: int) -> Seq<char> {
    if hours == 0 {
        "UTC"@
    } else if hours > 0 {
        "UTC+"@ + decimal(hours)
    } else {
        "UTC"@ + decimal(hours)
    }
}

/// The name of a fixed offset of whole hours.
pub fn format_offset(hours: i8) -> (res: String)
    ensures
        res@ == offset_name(hours as int),
{
    if hours == 0 {
        string_from_chars(&chars_of("UTC"))
    } else if hours > 0 {
        string_from_chars(&concat(&chars_of("UTC+"), &format_i64(hours as i64)))
    } else {
        string_from_chars(&concat(&chars_of("UTC"), &format_i64(hours as i64)))
    }
}

/// The offset in seconds of a time zone given in whole hours, which must lie
/// in `-12..=14`.
pub fn fixed_tz(offset: i8) -> (res: Result<i32, TimestampError>)
    ensures
        match res {
            Ok(s) => -12 <= offset <= 14 && s == offset * 3600,
            Err(e) => !(-12 <= offset <= 14) && e is OffsetOutOfRange,
        },
{
    if offset < -12 || offset > 14 {
        return Err(TimestampError::OffsetOutOfRange);
    }
    Ok(offset as i32 * 3600)
}

/// Seconds and nanoseconds of a Unix time given in seconds, or in
/// milliseconds when `millis` (floor division by 1000).
pub open spec fn epoch_parts(value: int, millis: bool) -> (int, int) {
    if millis {
        (value / 1000, (value % 1000) * 1_000_000)
    } else {
        (value, 0)
    }
}

/// A Unix time in milliseconds is its whole seconds times 1000 plus the
/// milliseconds of its fraction, and the fraction lies in `0..1_000_000_000`.
pub proof fn lemma_epoch_parts_reconstruct(value: int)
    ensures
        epoch_parts(value, true).0 * 1000 + epoch_parts(value, true).1 / 1_000_000 == value,
        0 <= epoch_parts(value, true).1 < 1_000_000_000,
        epoch_parts(value, true).1 % 1_000_000 == 0,
        epoch_parts(value, false) == (value, 0int),
{
    let r = value % 1000;
    assert((r * 1_000_000) / 1_000_000 == r);
    assert((r * 1_000_000) % 1_000_000 == 0);
}

/// `epoch_parts` with the Euclidean division of `i64`.
pub fn split_epoch(value: i64, millis: bool) -> (res: (i64, i32))
    ensures
        res.0 as int == epoch_parts(value as int, millis).0,
        res.1 as int == epoch_parts(value as int, millis).1,
        0 <= res.1 < 1_000_000_000,
{
    if !millis {
        return (value, 0);
    }
    if value >= 0 {
        let v = value as u64;
        ((v / 1000) as i64, ((v % 1000) as i32) * 1_000_000)
    } else {
        let a = (-(value + 1)) as u64;
        let q = (a / 1000) as i64;
        let r = (a % 1000) as i32;
        proof {
            assert(value == -(a as int) - 1);
            assert(value as int / 1000 == -(q as int) - 1 && value as int % 1000 == 999 - r) by {
                assert(a as int == q * 1000 + r);
            }
        }
        (-q - 1, (999 - r) * 1_000_000)
    }
}

/// A three-digit field as `{:03}` prints it: zero-padded to width three,
/// the width counting a minus sign.
pub open spec fn zero_padded3(n: int) -> Seq<char> {
    let digits = radix_digits((if n < 0 {
        -n
    } else {
        n
    }) as nat, 10);
    if n < 0 {
        seq!['-'] + Seq::new(
            (if digits.len() < 2 {
                2 - digits.len()
            } else {
                0
            }) as nat,
            |i: int| '0',
        ) + digits
    } else {
        Seq::new(
            (if digits.len() < 3 {
                3 - digits.len()
            } else {
                0
            }) as nat,
            |i: int| '0',
        ) + digits
    }
}

proof fn lemma_small_digits_len(m: nat)
    requires
        m < 1000,
    ensures
        1 <= radix_digits(m, 10).len() <= 3,
{
    if m >= 10 {
        let q = m / 10;
        assert(radix_digits(m, 10) == radix_digits(q, 10).push(crate::radix::digit_char(m % 10)));
        if q >= 10 {
            let q2 = q / 10;
            assert(q2 < 10);
            assert(radix_digits(q, 10) == radix_digits(q2, 10).push(
                crate::radix::digit_char(q % 10),
            ));
            assert(radix_digits(q2, 10).len() == 1);
        } else {
            assert(radix_digits(q, 10).len() == 1);
        }
    }
}

/// A millisecond count below 1000 is written as exactly three decimal digits
/// whose value is the count (`5` as `005`, `50` as `050`).
pub proof fn lemma_fraction_three_digits(m: int)
    requires
        0 <= m < 1000,
    ensures
        zero_padded3(m).len() == 3,
        forall|j: int| 0 <= j < 3 ==> is_digit(#[trigger] zero_padded3(m)[j], 10),
        digits_value(zero_padded3(m), 10) == m,
{
    let d = radix_digits(m as nat, 10);
    lemma_small_digits_len(m as nat);
    lemma_radix_digits_value(m as nat, 10);
    let k = (3 - d.len()) as nat;
    assert(zero_padded3(m) =~= zeros(k) + d);
    lemma_leading_zeros_value(k, d, 10);
    assert forall|j: int| 0 <= j < 3 implies is_digit(#[trigger] zero_padded3(m)[j], 10) by {
        if j < k {
            assert(zero_padded3(m)[j] == '0');
        } else {
            assert(zero_padded3(m)[j] == d[j - k]);
        }
    }
}

/// After the seconds, a fraction of a second `0 < ns < 1_000_000_000` adds
/// a `.` and exactly three decimal digits holding the whole milliseconds;
/// no fraction adds nothing.
pub proof fn lemma_with_fraction_millis(t: Seq<char>, ns: int)
    requires
        0 <= ns < 1_000_000_000,
    ensures
        ns == 0 ==> with_fraction(t, ns) == t,
        ns > 0 ==> {
            let f = with_fraction(t, ns);
            &&& f.len() == t.len() + 4
            &&& f.take(t.len() as int) == t
            &&& f[t.len() as int] == '.'
            &&& forall|j: int| t.len() < j < f.len() ==> is_digit(#[trigger] f[j], 10)
            &&& digits_value(f.skip(t.len() + 1int), 10) == ns / 1_000_000
        },
{
    if ns > 0 {
        let m = ns / 1_000_000;
        lemma_fraction_three_digits(m);
        let f = with_fraction(t, ns);
        let p = zero_padded3(m);
        assert(f == t + seq!['.'] + p);
        assert(f.take(t.len() as int) =~= t);
        assert(f.skip(t.len() + 1int) =~= p);
        assert forall|j: int| t.len() < j < f.len() implies is_digit(#[trigger] f[j], 10) by {
            assert(f[j] == p[j - t.len() - 1]);
        }
    }
}

fn zero_padded3_exec(n: i32) -> (res: Vec<char>)
    requires
        -1000 < n < 1000,
    ensures
        res@ == zero_padded3(n as int),
{
    let mag: u64 = if n < 0 {
        (-n) as u64
    } else {
        n as u64
    };
    let digits = crate::radix::format_u64_radix(mag, 10);
    let width: usize = if n < 0 {
        2
    } else {
        3
    };
    let mut out: Vec<char> = Vec::new();
    if n < 0 {
        out.push('-');
    }
    let ghost start = out@;
    let pad: usize = if digits.len() < width {
        width - digits.len()
    } else {
        0
    };
    let mut k: usize = 0;
    while k < pad
        invariant
            0 <= k <= pad,
            out@ =~= start + Seq::new(k as nat, |i: int| '0'),
        decreases pad - k,
    {
        out.push('0');
        k = k + 1;
    }
    crate::text::push_all(&mut out, &digits);
    proof {
        if n < 0 {
            assert(start =~= seq!['-']);
        } else {
            assert(start =~= Seq::<char>::empty());
        }
    }
    out
}

/// A civil date-time text followed by `.mmm` when the fraction of a second
/// is not zero (`mmm` is the fraction in whole milliseconds).
pub open spec fn with_fraction(text: Seq<char>, nanosecond: int) -> Seq<char> {
    if nanosecond == 0 {
        text
    } else {
        text + seq!['.'] + zero_padded3(if nanosecond < 0 {
            -((-nanosecond) / 1_000_000)
        } else {
            nanosecond / 1_000_000
        })
    }
}

/// Appends `.mmm` to the text when the fraction is not zero.
pub fn append_fraction(text: String, nanosecond: i32) -> (res: String)
    requires
        -1_000_000_000 < nanosecond < 1_000_000_000,
    ensures
        res@ == with_fraction(text@, nanosecond as int),
{
    if nanosecond == 0 {
        return text;
    }
    let ms: i32 = if nanosecond < 0 {
        -((-nanosecond) / 1_000_000)
    } else {
        nanosecond / 1_000_000
    };
    let mut out = chars_of(text.as_str());
    out.push('.');
    crate::text::push_all(&mut out, &zero_padded3_exec(ms));
    string_from_chars(&out)
}

/// The position of the last `.` in `s`.
pub open spec fn last_dot(s: Seq<char>) -> Option<int>
    decreases s.len(),
{
    if s.len() == 0 {
        None
    } else if s.last() == '.' {
        Some(s.len() - 1)
    } else {
        last_dot(s.drop_last())
    }
}

/// `s` split at its last `.` into the part before and the fraction after it,
/// when the fraction is a non-empty run of digits; the fraction gives
/// milliseconds from its first three digits, padded with zeros on the right.
pub open spec fn split_fraction(s: Seq<char>) -> (Seq<char>, int) {
    match last_dot(s) {
        Some(i) => {
            let frac = s.skip(i + 1);
            if frac.len() > 0 && forall|j: int| 0 <= j < frac.len() ==> is_ascii_digit(#[trigger] frac[j]) {
                let d = |j: int| if j < frac.len() {
                    frac[j] as int - 48
                } else {
                    0
                };
                (s.take(i), d(0) * 100 + d(1) * 10 + d(2))
            } else {
                (s, 0)
            }
        },
        None => (s, 0),
    }
}

proof fn lemma_last_dot(s: Seq<char>, i: int)
    requires
        0 <= i < s.len(),
        s[i] == '.',
        forall|j: int| i < j < s.len() ==> #[trigger] s[j] != '.',
    ensures
        last_dot(s) == Some(i),
    decreases s.len(),
{
    if i < s.len() - 1 {
        let t = s.drop_last();
        assert forall|j: int| i < j < t.len() implies #[trigger] t[j] != '.' by {
            assert(t[j] == s[j]);
        }
        lemma_last_dot(t, i);
    }
}

proof fn lemma_no_dot(s: Seq<char>)
    requires
        forall|j: int| 0 <= j < s.len() ==> #[trigger] s[j] != '.',
    ensures
        last_dot(s) is None,
    decreases s.len(),
{
    if s.len() > 0 {
        let t = s.drop_last();
        assert forall|j: int| 0 <= j < t.len() implies #[trigger] t[j] != '.' by {
            assert(t[j] == s[j]);
        }
        lemma_no_dot(t);
    }
}

/// Splits a date-time text at its fraction of a second (see `split_fraction`).
pub fn split_frac(input: &str) -> (res: (String, i64))
    ensures
        res.0@ == split_fraction(input@).0,
        res.1 as int == split_fraction(input@).1,
        0 <= res.1 < 1000,
{
    let s = chars_of(input);
    let n = s.len();
    let mut i: usize = n;
    while i > 0 && s[i - 1] != '.'
        invariant
            0 <= i <= n,
            n == s@.len(),
            forall|j: int| i <= j < n ==> #[trigger] s@[j] != '.',
        decreases i,
    {
        i = i - 1;
    }
    if i == 0 {
        proof {
            lemma_no_dot(s@);
        }
        return (string_from_chars(&s), 0);
    }
    let dot = i - 1;
    proof {
        lemma_last_dot(s@, dot as int);
    }
    if i == n {
        return (string_from_chars(&s), 0);
    }
    let ghost frac = s@.skip(i as int);
    let mut k: usize = i;
    while k < n
        invariant
            i <= k <= n,
            n == s@.len(),
            frac == s@.skip(i as int),
            s@ == input@,
            i >= 1,
            last_dot(s@) == Some(i - 1),
            forall|j: int| 0 <= j < k - i ==> is_ascii_digit(#[trigger] frac[j]),
        decreases n - k,
    {
        if !crate::text::ascii_digit(s[k]) {
            assert(!is_ascii_digit(frac[k - i]));
            return (string_from_chars(&s), 0);
        }
        k = k + 1;
    }
    assert(is_ascii_digit(frac[0]));
    assert(frac[0] == s@[i as int]);
    let d0 = (s[i] as u32 - 48) as i64;
    let d1: i64 = if n - i > 1 {
        assert(is_ascii_digit(frac[1]));
        assert(frac[1] == s@[i + 1]);
        (s[i + 1] as u32 - 48) as i64
    } else {
        0
    };
    let d2: i64 = if n - i > 2 {
        assert(is_ascii_digit(frac[2]));
        assert(frac[2] == s@[i + 2]);
        (s[i + 2] as u32 - 48) as i64
    } else {
        0
    };
    let base = subrange(&s, 0, dot);
    assert(base@ =~= s@.take(dot as int));
    (string_from_chars(&base), d0 * 100 + d1 * 10 + d2)
}

/// The command of the timestamp tool.
pub enum Command {
    /// The current time, in seconds or milliseconds.
    Now { millis: bool, offset: i8 },
    /// The date-time of a Unix time, at the offset and in UTC.
    From { epoch: i64, millis: bool, offset: i8 },
    /// The Unix time, in seconds and milliseconds, of a date-time at the offset.
    To { datetime: String, offset: i8 },
}

/// Arguments of the timestamp tool.
pub struct Args {
    pub command: Command,
}

/// The header printed for a command.
pub open spec fn command_header(command: Command) -> Seq<char> {
    match command {
        Command::Now { .. } => "Timestamp (now)"@,
        Command::From { .. } => "Timestamp to date"@,
        Command::To { .. } => "Date to timestamp"@,
    }
}

/// The header printed for a command, before it runs.
pub fn header(command: &Command) -> (res: String)
    ensures
        res@ == command_header(*command),
{
    match command {
        Command::Now { .. } => string_from_chars(&chars_of("Timestamp (now)")),
        Command::From { .. } => string_from_chars(&chars_of("Timestamp to date")),
        Command::To { .. } => string_from_chars(&chars_of("Date to timestamp")),
    }
}

/// The offset of a command.
pub open spec fn command_offset(command: Command) -> i8 {
    match command {
        Command::Now { offset, .. } => offset,
        Command::From { offset, .. } => offset,
        Command::To { offset, .. } => offset,
    }
}

/// The two lines printed for a Unix time: the date-time at the offset with
/// the offset's name, and the date-time in UTC.
pub open spec fn from_lines(epoch: int, millis: bool, offset: int) -> (Seq<char>, Seq<char>) {
    let (s, ns) = epoch_parts(epoch, millis);
    (
        with_fraction(civil_datetime_text(s, ns, offset * 3600), ns) + seq![' '] + offset_name(
            offset,
        ),
        with_fraction(civil_datetime_text(s, ns, 0), ns) + " UTC"@,
    )
}

/// Whether `line` is a text line holding `t`.
pub open spec fn text_line(line: ReportLine, t: Seq<char>) -> bool {
    line matches ReportLine::Text(x) && x@ == t
}

/// Whether `v` is a time `jiff` can give as the current time: a second in
/// its range, or a millisecond of such a second when `millis`.
pub open spec fn clock_range(v: int, millis: bool) -> bool {
    if millis {
        min_second() * 1000 <= v <= max_second() * 1000 + 999
    } else {
        min_second() <= v <= max_second()
    }
}

fn now_lines(millis: bool) -> (res: Vec<ReportLine>)
    ensures
        res@.len() == 1,
        exists|v: int| clock_range(v, millis) && #[trigger] text_line(res@[0], decimal(v)),
{
    let v = if millis {
        now_millisecond()
    } else {
        now_second()
    };
    let mut lines: Vec<ReportLine> = Vec::new();
    lines.push(ReportLine::Text(string_from_chars(&format_i64(v))));
    assert(text_line(lines@[0], decimal(v as int)));
    lines
}

fn from_lines_exec(epoch: i64, millis: bool, offset: i8, tz: i32) -> (res: Result<
    Vec<ReportLine>,
    jiff::Error,
>)
    requires
        -12 <= offset <= 14,
        tz == offset * 3600,
    ensures
        res is Ok <==> min_second() <= epoch_parts(epoch as int, millis).0 <= max_second(),
        res matches Ok(lines) ==> {
            &&& lines@.len() == 2
            &&& text_line(lines@[0], from_lines(epoch as int, millis, offset as int).0)
            &&& text_line(lines@[1], from_lines(epoch as int, millis, offset as int).1)
        },
{
    let (s, ns) = split_epoch(epoch, millis);
    let (text, _, civil) = match zoned_text(s, ns, tz) {
        Ok(t) => t,
        Err(e) => return Err(e),
    };
    let (utc, _, _) = match zoned_text(s, ns, 0) {
        Ok(t) => t,
        Err(e) => return Err(e),
    };
    let mut first = chars_of(append_fraction(text, civil).as_str());
    first.push(' ');
    crate::text::push_all(&mut first, &chars_of(format_offset(offset).as_str()));
    let second = concat(&chars_of(append_fraction(utc, civil).as_str()), &chars_of(" UTC"));
    let ghost expected = from_lines(epoch as int, millis, offset as int);
    assert(first@ =~= expected.0);
    assert(second@ =~= expected.1);
    let mut lines: Vec<ReportLine> = Vec::new();
    lines.push(ReportLine::Text(string_from_chars(&first)));
    lines.push(ReportLine::Text(string_from_chars(&second)));
    Ok(lines)
}

fn to_lines_exec(datetime: &str, offset: i8, tz: i32) -> (res: Result<Vec<ReportLine>, jiff::Error>)
    requires
        -12 <= offset <= 14,
        tz == offset * 3600,
    ensures
        ({
            let (base, ms) = split_fraction(datetime@);
            match res {
                Ok(lines) => civil_fields(base) is Some && (civil_second(
                    civil_fields(base)->Some_0,
                    offset * 3600,
                ) matches Some(sec) && lines@.len() == 2 && text_line(
                    lines@[0],
                    decimal(sec as int),
                ) && text_line(lines@[1], decimal(sec * 1000 + ms))),
                Err(_) => civil_fields(base) is None || civil_second(
                    civil_fields(base)->Some_0,
                    offset * 3600,
                ) is None,
            }
        }),
{
    let (base, frac_ms) = split_frac(datetime);
    let fields = match parse_civil(base.as_str()) {
        Ok(f) => f,
        Err(e) => return Err(e),
    };
    let seconds = match civil_to_second(fields, tz) {
        Ok(s) => s,
        Err(e) => return Err(e),
    };
    let mut lines: Vec<ReportLine> = Vec::new();
    lines.push(ReportLine::Text(string_from_chars(&format_i64(seconds))));
    lines.push(ReportLine::Text(string_from_chars(&format_i64(seconds * 1000 + frac_ms))));
    Ok(lines)
}

/// Runs a timestamp command. `Now` prints the clock's time; `From` prints
/// the date-time of a Unix time; `To` prints the Unix time of a date-time
/// in seconds and in milliseconds.
pub fn run(args: Args) -> (res: Result<Report, TimestampError>)
    ensures
        (res matches Err(TimestampError::OffsetOutOfRange)) <==> !(-12 <= command_offset(
            args.command,
        ) <= 14),
        res matches Ok(report) ==> {
            &&& report.header@ == command_header(args.command)
            &&& match args.command {
                Command::Now { millis, .. } => report.lines@.len() == 1 && exists|v: int|
                    clock_range(v, millis) && #[trigger] text_line(report.lines@[0], decimal(v)),
                Command::From { epoch, millis, offset } => {
                    let (s, _) = epoch_parts(epoch as int, millis);
                    &&& min_second() <= s <= max_second()
                    &&& report.lines@.len() == 2
                    &&& text_line(report.lines@[0], from_lines(epoch as int, millis, offset as int).0)
                    &&& text_line(report.lines@[1], from_lines(epoch as int, millis, offset as int).1)
                },
                Command::To { datetime, offset } => {
                    let (base, ms) = split_fraction(datetime@);
                    &&& civil_fields(base) is Some
                    &&& civil_second(civil_fields(base)->Some_0, offset * 3600) matches Some(sec)
                        && report.lines@.len() == 2 && text_line(report.lines@[0], decimal(sec as int))
                        && text_line(report.lines@[1], decimal(sec * 1000 + ms))
                },
            }
        },
        res matches Err(TimestampError::Jiff(_)) ==> match args.command {
            Command::Now { .. } => false,
            Command::From { epoch, millis, .. } => {
                let (s, _) = epoch_parts(epoch as int, millis);
                !(min_second() <= s <= max_second())
            },
            Command::To { datetime, offset } => {
                let (base, _) = split_fraction(datetime@);
                civil_fields(base) is None || civil_second(civil_fields(base)->Some_0, offset * 3600)
                    is None
            },
        },
{
    let head = header(&args.command);
    let offset = match &args.command {
        Command::Now { offset, .. } => *offset,
        Command::From { offset, .. } => *offset,
        Command::To { offset, .. } => *offset,
    };
    let tz = match fixed_tz(offset) {
        Ok(t) => t,
        Err(e) => return Err(e),
    };
    let lines = match args.command {
        Command::Now { millis, .. } => now_lines(millis),
        Command::From { epoch, millis, offset } => match from_lines_exec(epoch, millis, offset, tz) {
            Ok(l) => l,
            Err(e) => return Err(TimestampError::Jiff(e)),
        },
        Command::To { datetime, offset } => match to_lines_exec(datetime.as_str(), offset, tz) {
            Ok(l) => l,
            Err(e) => return Err(TimestampError::Jiff(e)),
        },
    };
    Ok(Report { header: head, lines })
}

} // verus!
