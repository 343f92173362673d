//! The timestamp tool of the desktop application: a Unix time shown as a
//! date-time at the chosen offset and in UTC, and a date-time read back as
//! a Unix time.

use crate::cmd::timestamp::{
    append_fraction, civil_datetime_text, clock_range, civil_fields, civil_second, civil_to_second, epoch_parts,
    format_offset, max_second, min_second, now_millisecond, now_second, offset_name, parse_civil,
    split_epoch, split_frac, split_fraction, with_fraction, zoned_text,
};
use crate::locale::L10n;
use crate::radix::{decimal, format_i64, parse_i64, parse_int};
use crate::text::{chars_of, owned, string_from_chars, trim, trim_chars};
use vstd::prelude::*;

verus! {

/// The offsets, in whole hours, that the offset menu lists.
pub open spec fn offset_list() -> Seq<i32> {
    Seq::new(27, |i: int| (i - 12) as i32)
}

/// The offsets, in whole hours, that the offset menu lists: `-12..=14`.
pub fn offsets() -> (res: Vec<i32>)
    ensures
        res@ == offset_list(),
{
    let mut out: Vec<i32> = Vec::new();
    let mut h: i32 = -12;
    while h <= 14
        invariant
            -12 <= h <= 15,
            out@ =~= Seq::new((h + 12) as nat, |i: int| (i - 12) as i32),
        decreases 15 - h,
    {
        out.push(h);
        h = h + 1;
    }
    out
}

/// A Unix time shown as date-times: the offset's name, the date-time at
/// the offset, and the date-time in UTC.
pub struct TimestampResult {
    pub tz_name: String,
    pub tz_time: String,
    pub utc_time: String,
}

/// A date-time read as a Unix time, in seconds and in milliseconds.
#[derive(Clone, Copy, Debug, PartialEq, Eq, Structural)]
pub struct DateTimeResult {
    pub seconds: i64,
    pub millis: i64,
}

/// Why a date-time could not be read.
#[derive(Clone, Copy, Debug, PartialEq, Eq, Structural)]
pub enum ParseError {
    /// It is not in the form `YYYY-MM-DD HH:MM:SS[.fff]`.
    Format,
    /// It does not exist at the offset, or its instant is out of range.
    Tz,
}

/// The texts shown for the Unix time written in `t` (seconds, or
/// milliseconds when `millis`) at the offset of `offset` hours, or `None`
/// when `t` is not an `i64` or the instant is out of range. The fraction of
/// a second shown is the one the timestamp keeps, which is negative before
/// 1970.
pub open spec fn ts_shown(t: Seq<char>, millis: bool, offset: int) -> Option<
    (Seq<char>, Seq<char>, Seq<char>),
> {
    match parse_int(t, 10, i64::MIN as int, i64::MAX as int, true) {
        Err(_) => None,
        Ok(v) => {
            let (s, ns) = epoch_parts(v, millis);
            if min_second() <= s <= max_second() {
                let f = if s < 0 && ns > 0 {
                    ns - 1_000_000_000
                } else {
                    ns
                };
                Some(
                    (
                        offset_name(offset),
                        with_fraction(civil_datetime_text(s, ns, offset * 3600), f),
                        with_fraction(civil_datetime_text(s, ns, 0), f),
                    ),
                )
            } else {
                None
            }
        },
    }
}

/// The Unix time, in seconds and milliseconds, of the date-time written in
/// `t` at the offset of `offset` hours.
pub open spec fn dt_parsed(t: Seq<char>, offset: int) -> Result<(int, int), ParseError> {
    let (base, ms) = split_fraction(t);
    match civil_fields(base) {
        None => Err(ParseError::Format),
        Some(f) => match civil_second(f, offset * 3600) {
            None => Err(ParseError::Tz),
            Some(sec) => Ok((sec as int, sec * 1000 + ms)),
        },
    }
}

/// Whether a result shows the three texts.
pub open spec fn result_shows(r: TimestampResult, texts: (Seq<char>, Seq<char>, Seq<char>)) -> bool {
    r.tz_name@ == texts.0 && r.tz_time@ == texts.1 && r.utc_time@ == texts.2
}

fn ts_convert(t: &Vec<char>, millis: bool, offset: i32) -> (res: Option<TimestampResult>)
    requires
        -12 <= offset <= 14,
    ensures
        match ts_shown(t@, millis, offset as int) {
            Some(texts) => res matches Some(r) && result_shows(r, texts),
            None => res is None,
        },
{
    let v = match parse_i64(t, 10) {
        Ok(v) => v,
        Err(_) => return None,
    };
    let (s, ns) = split_epoch(v, millis);
    let (text, fraction, _) = match zoned_text(s, ns, offset * 3600) {
        Ok(z) => z,
        Err(_) => return None,
    };
    let (utc, _, _) = match zoned_text(s, ns, 0) {
        Ok(z) => z,
        Err(_) => return None,
    };
    Some(
        TimestampResult {
            tz_name: format_offset(offset as i8),
            tz_time: append_fraction(text, fraction),
            utc_time: append_fraction(utc, fraction),
        },
    )
}

/// Reads a date-time at the offset as a Unix time.
pub fn parse_datetime(input: &str, offset: i32) -> (res: Result<(i64, i64), ParseError>)
    requires
        -12 <= offset <= 14,
    ensures
        match dt_parsed(input@, offset as int) {
            Ok((s, m)) => res == Ok::<(i64, i64), ParseError>((s as i64, m as i64)) && s == res->Ok_0.0
                && m == res->Ok_0.1,
            Err(e) => res == Err::<(i64, i64), ParseError>(e),
        },
{
    let (base, frac_ms) = split_frac(input);
    let fields = match parse_civil(base.as_str()) {
        Ok(f) => f,
        Err(_) => return Err(ParseError::Format),
    };
    let seconds = match civil_to_second(fields, offset * 3600) {
        Ok(s) => s,
        Err(_) => return Err(ParseError::Tz),
    };
    Ok((seconds, seconds * 1000 + frac_ms))
}

/// The state of the timestamp tool.
pub struct TimestampPanel {
    /// The Unix time shown as date-times.
    pub ts_result: Option<TimestampResult>,
    /// The message shown when the Unix time could not be read.
    pub ts_error: Option<String>,
    /// The date-time read as a Unix time.
    pub dt_result: Option<DateTimeResult>,
    /// The message shown when the date-time could not be read.
    pub dt_error: Option<String>,
    /// Whether the Unix time is in milliseconds.
    pub ts_unit: bool,
    /// The offset from UTC, in whole hours.
    pub tz_offset: i32,
    /// Whether the offset menu is open.
    pub tz_menu_open: bool,
}

/// The Unix-time side after reading `input`.
pub open spec fn ts_converted(before: TimestampPanel, after: TimestampPanel, l10n: L10n, input: Seq<char>) -> bool {
    let t = trim(input);
    &&& after.dt_result == before.dt_result
    &&& after.dt_error == before.dt_error
    &&& after.ts_unit == before.ts_unit
    &&& after.tz_offset == before.tz_offset
    &&& after.tz_menu_open == before.tz_menu_open
    &&& if t.len() == 0 {
        after.ts_result is None && after.ts_error is None
    } else {
        match ts_shown(t, before.ts_unit, before.tz_offset as int) {
            Some(texts) => (after.ts_result matches Some(r) && result_shows(r, texts))
                && after.ts_error is None,
            None => after.ts_result is None && (after.ts_error matches Some(e) && e@
                == l10n.timestamp_error_timestamp@),
        }
    }
}

/// The date-time side after reading `input`.
pub open spec fn dt_converted(before: TimestampPanel, after: TimestampPanel, l10n: L10n, input: Seq<char>) -> bool {
    let t = trim(input);
    &&& after.ts_result == before.ts_result
    &&& after.ts_error == before.ts_error
    &&& after.ts_unit == before.ts_unit
    &&& after.tz_offset == before.tz_offset
    &&& after.tz_menu_open == before.tz_menu_open
    &&& if t.len() == 0 {
        after.dt_result is None && after.dt_error is None
    } else {
        match dt_parsed(t, before.tz_offset as int) {
            Ok((s, m)) => after.dt_result == Some(DateTimeResult { seconds: s as i64, millis: m as i64 })
                && after.dt_error is None,
            Err(ParseError::Format) => after.dt_result is None && (after.dt_error matches Some(e)
                && e@ == l10n.timestamp_error_datetime@),
            Err(ParseError::Tz) => after.dt_result is None && (after.dt_error matches Some(e) && e@
                == l10n.timestamp_error_datetime_tz@),
        }
    }
}

impl TimestampPanel {
    /// The offset is one the menu lists.
    pub open spec fn wf(&self) -> bool {
        -12 <= self.tz_offset <= 14
    }

    /// The tool at start: seconds, offset UTC+8, nothing shown, menu closed.
    pub fn new() -> (res: Self)
        ensures
            res.wf(),
            res.ts_result is None && res.ts_error is None,
            res.dt_result is None && res.dt_error is None,
            !res.ts_unit,
            res.tz_offset == 8,
            !res.tz_menu_open,
    {
        TimestampPanel {
            ts_result: None,
            ts_error: None,
            dt_result: None,
            dt_error: None,
            ts_unit: false,
            tz_offset: 8,
            tz_menu_open: false,
        }
    }

    /// Reads the Unix time in the input and shows its date-times.
    pub fn ts_to_datetime(&mut self, l10n: &L10n, input: &str)
        requires
            old(self).wf(),
        ensures
            final(self).wf(),
            ts_converted(*old(self), *final(self), *l10n, input@),
    {
        self.ts_error = None;
        let t = trim_chars(&chars_of(input));
        if t.len() == 0 {
            self.ts_result = None;
            return;
        }
        match ts_convert(&t, self.ts_unit, self.tz_offset) {
            Some(r) => {
                self.ts_result = Some(r);
            },
            None => {
                self.ts_result = None;
                self.ts_error = Some(owned(l10n.timestamp_error_timestamp));
            },
        }
    }

    /// Reads the date-time in the input and shows its Unix time.
    pub fn dt_to_timestamp(&mut self, l10n: &L10n, input: &str)
        requires
            old(self).wf(),
        ensures
            final(self).wf(),
            dt_converted(*old(self), *final(self), *l10n, input@),
    {
        self.dt_error = None;
        let t = trim_chars(&chars_of(input));
        if t.len() == 0 {
            self.dt_result = None;
            return;
        }
        let text = string_from_chars(&t);
        match parse_datetime(text.as_str(), self.tz_offset) {
            Ok((seconds, millis)) => {
                self.dt_result = Some(DateTimeResult { seconds, millis });
            },
            Err(ParseError::Format) => {
                self.dt_result = None;
                self.dt_error = Some(owned(l10n.timestamp_error_datetime));
            },
            Err(ParseError::Tz) => {
                self.dt_result = None;
                self.dt_error = Some(owned(l10n.timestamp_error_datetime_tz));
            },
        }
    }

    /// Puts the current time (in the chosen unit) in the input and shows its
    /// date-times; returns the text put in the input.
    pub fn now(&mut self, l10n: &L10n) -> (value: String)
        requires
            old(self).wf(),
        ensures
            final(self).wf(),
            exists|v: int| clock_range(v, old(self).ts_unit) && #[trigger] decimal(v) == value@,
            ts_converted(*old(self), *final(self), *l10n, value@),
    {
        let v = if self.ts_unit {
            now_millisecond()
        } else {
            now_second()
        };
        let value = string_from_chars(&format_i64(v));
        assert(value@ == decimal(v as int));
        self.ts_to_datetime(l10n, value.as_str());
        value
    }

    /// Opens the offset menu when closed, closes it when open.
    pub fn toggle_tz_menu(&mut self)
        ensures
            final(self).tz_menu_open == !old(self).tz_menu_open,
            *final(self) == (TimestampPanel { tz_menu_open: !old(self).tz_menu_open, ..*old(self) }),
    {
        self.tz_menu_open = !self.tz_menu_open;
    }

    /// Closes the offset menu.
    pub fn close_tz_menu(&mut self)
        ensures
            *final(self) == (TimestampPanel { tz_menu_open: false, ..*old(self) }),
    {
        if self.tz_menu_open {
            self.tz_menu_open = false;
        }
    }

    /// Chooses the offset, closes the menu, and reads again whichever
    /// input is not blank.
    pub fn select_offset(&mut self, l10n: &L10n, offset: i32, ts_input: &str, dt_input: &str)
        requires
            -12 <= offset <= 14,
        ensures
            final(self).wf(),
            final(self).tz_offset == offset,
            !final(self).tz_menu_open,
            final(self).ts_unit == old(self).ts_unit,
            trim(ts_input@).len() > 0 ==> ts_converted(
                TimestampPanel {
                    tz_offset: offset,
                    tz_menu_open: false,
                    ts_error: None,
                    dt_result: final(self).dt_result,
                    dt_error: final(self).dt_error,
                    ..*old(self)
                },
                *final(self),
                *l10n,
                ts_input@,
            ),
            trim(ts_input@).len() == 0 ==> final(self).ts_result == old(self).ts_result
                && final(self).ts_error is None,
            trim(dt_input@).len() > 0 ==> dt_converted(
                TimestampPanel {
                    tz_offset: offset,
                    tz_menu_open: false,
                    dt_error: None,
                    ts_result: final(self).ts_result,
                    ts_error: final(self).ts_error,
                    ..*old(self)
                },
                *final(self),
                *l10n,
                dt_input@,
            ),
            trim(dt_input@).len() == 0 ==> final(self).dt_result == old(self).dt_result
                && final(self).dt_error is None,
    {
        self.tz_offset = offset;
        self.tz_menu_open = false;
        self.ts_error = None;
        self.dt_error = None;
        let has_ts = trim_chars(&chars_of(ts_input)).len() > 0;
        let has_dt = trim_chars(&chars_of(dt_input)).len() > 0;
        if has_ts {
            self.ts_to_datetime(l10n, ts_input);
        }
        if has_dt {
            self.dt_to_timestamp(l10n, dt_input);
        }
    }

    /// Chooses seconds or milliseconds, and reads the Unix time again when
    /// the input is not blank; else clears its date-times.
    pub fn select_ts_unit(&mut self, l10n: &L10n, ms: bool, ts_input: &str)
        requires
            old(self).wf(),
        ensures
            final(self).wf(),
            final(self).ts_unit == ms,
            trim(ts_input@).len() > 0 ==> ts_converted(
                TimestampPanel { ts_unit: ms, ts_error: None, ..*old(self) },
                *final(self),
                *l10n,
                ts_input@,
            ),
            trim(ts_input@).len() == 0 ==> *final(self) == (TimestampPanel {
                ts_unit: ms,
                ts_error: None,
                ts_result: None,
                ..*old(self)
            }),
    {
        self.ts_unit = ms;
        self.ts_error = None;
        let has_ts = trim_chars(&chars_of(ts_input)).len() > 0;
        if has_ts {
            self.ts_to_datetime(l10n, ts_input);
        } else {
            self.ts_result = None;
        }
    }

    /// Clears everything shown and closes the menu; the unit and the offset
    /// stay.
    pub fn clear(&mut self)
        ensures
            *final(self) == (TimestampPanel {
                ts_result: None,
                ts_error: None,
                dt_result: None,
                dt_error: None,
                tz_menu_open: false,
                ..*old(self)
            }),
    {
        self.ts_result = None;
        self.ts_error = None;
        self.dt_result = None;
        self.dt_error = None;
        self.tz_menu_open = false;
    }
}

} // verus!
