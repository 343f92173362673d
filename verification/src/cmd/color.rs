//! Colours: reading `#RRGGBB[AA]`, `rgb()/rgba()` and `hsl()/hsla()` texts,
//! and writing the hexadecimal forms. Fractions (alpha, hue, saturation,
//! lightness) are floating-point numbers and are read by the caller from
//! the texts that this module isolates.

use crate::hexfmt::{hex_digit, hex_text, push_hex};
use crate::radix::{digit_value, parse_int, parse_unsigned, IntErrorKind};
use crate::text::{
    chars_of, split, split_chars, string_from_chars, strip_prefix, strip_suffix, trim, trim_chars,
    without_prefix, without_suffix,
};
use vstd::prelude::*;

verus! {

/// Why a colour text cannot be read.
#[derive(Debug, PartialEq, Eq)]
pub enum ColorError {
    /// Not `#...`, `rgb...` or `hsl...`.
    UnsupportedFormat,
    /// A hexadecimal colour needs 6 or 8 digits.
    HexDigitCount,
    /// A character of a hexadecimal colour is not a hex digit.
    InvalidHexDigit,
    /// Not of the form `rgb(...)`/`rgba(...)`.
    InvalidRgbFormat,
    /// `rgb()` needs 3 or 4 components.
    RgbComponentCount,
    /// This red, green or blue component is not an integer `0..=255`.
    InvalidRgbComponent(String),
    /// Not of the form `hsl(...)`/`hsla(...)`.
    InvalidHslFormat,
    /// `hsl()` needs 3 or 4 components.
    HslComponentCount,
}

/// The message shown for an error.
pub open spec fn error_message(e: ColorError) -> Seq<char> {
    match e {
        ColorError::UnsupportedFormat => "unsupported color format; expected #RRGGBB[AA], rgb()/rgba(), or hsl()/hsla()"@,
        ColorError::HexDigitCount => "hex color must have 6 or 8 hex digits"@,
        ColorError::InvalidHexDigit => "invalid hex digit"@,
        ColorError::InvalidRgbFormat => "invalid rgb format"@,
        ColorError::RgbComponentCount => "rgb requires 3 or 4 components"@,
        ColorError::InvalidRgbComponent(v) => "invalid rgb component: "@ + v@,
        ColorError::InvalidHslFormat => "invalid hsl format"@,
        ColorError::HslComponentCount => "hsl requires 3 or 4 components"@,
    }
}

impl ColorError {
    /// The message shown for the error.
    pub fn message(&self) -> (res: String)
        ensures
            res@ == error_message(*self),
    {
        match self {
            ColorError::UnsupportedFormat => string_from_chars(
                &chars_of(
                    "unsupported color format; expected #RRGGBB[AA], rgb()/rgba(), or hsl()/hsla()",
                ),
            ),
            ColorError::HexDigitCount => string_from_chars(
                &chars_of("hex color must have 6 or 8 hex digits"),
            ),
            ColorError::InvalidHexDigit => string_from_chars(&chars_of("invalid hex digit")),
            ColorError::InvalidRgbFormat => string_from_chars(&chars_of("invalid rgb format")),
            ColorError::RgbComponentCount => string_from_chars(
                &chars_of("rgb requires 3 or 4 components"),
            ),
            ColorError::InvalidRgbComponent(v) => {
                let mut m = chars_of("invalid rgb component: ");
                crate::text::push_all(&mut m, &chars_of(v.as_str()));
                string_from_chars(&m)
            },
            ColorError::InvalidHslFormat => string_from_chars(&chars_of("invalid hsl format")),
            ColorError::HslComponentCount => string_from_chars(
                &chars_of("hsl requires 3 or 4 components"),
            ),
        }
    }
}

/// Red, green and blue bytes, and the alpha byte when eight digits were given.
#[derive(Clone, Copy, Debug, PartialEq, Eq, Structural)]
pub struct HexColor {
    pub r: u8,
    pub g: u8,
    pub b: u8,
    pub alpha: Option<u8>,
}

/// The components of an `rgb()`/`rgba()` text: three bytes and the alpha text.
pub struct RgbParts {
    pub r: u8,
    pub g: u8,
    pub b: u8,
    pub alpha: Option<String>,
}

/// The component texts of an `hsl()`/`hsla()` text; saturation and lightness
/// are given without their trailing `%` signs.
pub struct HslParts {
    pub hue: String,
    pub saturation: String,
    pub lightness: String,
    pub alpha: Option<String>,
}

/// A colour text, split by its form.
pub enum ColorInput {
    Hex(HexColor),
    Rgb(RgbParts),
    Hsl(HslParts),
}

pub open spec fn is_hex_digit(c: char) -> bool {
    digit_value(c, 16) is Some
}

pub open spec fn hex_pair(c1: char, c2: char) -> nat {
    digit_value(c1, 16)->Some_0 * 16 + digit_value(c2, 16)->Some_0
}

/// What the digits after `#` mean: six or eight hex digits.
pub open spec fn hex_color(s: Seq<char>) -> Result<HexColor, ColorError> {
    if s.len() != 6 && s.len() != 8 {
        Err(ColorError::HexDigitCount)
    } else if exists|i: int| 0 <= i < s.len() && !is_hex_digit(#[trigger] s[i]) {
        Err(ColorError::InvalidHexDigit)
    } else {
        Ok(
            HexColor {
                r: hex_pair(s[0], s[1]) as u8,
                g: hex_pair(s[2], s[3]) as u8,
                b: hex_pair(s[4], s[5]) as u8,
                alpha: if s.len() == 8 {
                    Some(hex_pair(s[6], s[7]) as u8)
                } else {
                    None
                },
            },
        )
    }
}

fn pair(c1: char, c2: char) -> (res: Option<u8>)
    ensures
        match res {
            Some(v) => is_hex_digit(c1) && is_hex_digit(c2) && v as int == hex_pair(c1, c2),
            None => !is_hex_digit(c1) || !is_hex_digit(c2),
        },
{
    let hi = crate::radix::digit_of(c1, 16);
    let lo = crate::radix::digit_of(c2, 16);
    match (hi, lo) {
        (Some(h), Some(l)) => Some((h * 16 + l) as u8),
        _ => None,
    }
}

/// Reads the digits that follow `#`.
pub fn parse_hex(s: &str) -> (res: Result<HexColor, ColorError>)
    ensures
        res == hex_color(s@),
{
    let chars = chars_of(s);
    let n = chars.len();
    if n != 6 && n != 8 {
        return Err(ColorError::HexDigitCount);
    }
    let r = pair(chars[0], chars[1]);
    let g = pair(chars[2], chars[3]);
    let b = pair(chars[4], chars[5]);
    let a = if n == 8 {
        pair(chars[6], chars[7])
    } else {
        Some(0)
    };
    match (r, g, b, a) {
        (Some(r), Some(g), Some(b), Some(a)) => {
            proof {
                assert forall|i: int| 0 <= i < chars@.len() implies is_hex_digit(
                    #[trigger] chars@[i],
                ) by {
                    assert(i == 0 || i == 1 || i == 2 || i == 3 || i == 4 || i == 5 || i == 6 || i
                        == 7);
                }
            }
            Ok(HexColor { r, g, b, alpha: if n == 8 { Some(a) } else { None } })
        },
        _ => {
            proof {
                if r is None {
                    assert(!is_hex_digit(chars@[0]) || !is_hex_digit(chars@[1]));
                } else if g is None {
                    assert(!is_hex_digit(chars@[2]) || !is_hex_digit(chars@[3]));
                } else if b is None {
                    assert(!is_hex_digit(chars@[4]) || !is_hex_digit(chars@[5]));
                } else {
                    assert(!is_hex_digit(chars@[6]) || !is_hex_digit(chars@[7]));
                }
            }
            Err(ColorError::InvalidHexDigit)
        },
    }
}

/// `s` without the first of the `prefixes` that it starts with.
pub open spec fn strip_any_prefix(s: Seq<char>, prefixes: Seq<Seq<char>>) -> Option<Seq<char>>
    decreases prefixes.len(),
{
    if prefixes.len() == 0 {
        None
    } else {
        match strip_prefix(s, prefixes[0]) {
            Some(t) => Some(t),
            None => strip_any_prefix(s, prefixes.drop_first()),
        }
    }
}

/// The text between `NAMEA(` (or `name(`) and the closing `)`.
pub open spec fn call_args(s: Seq<char>, long_lower: Seq<char>, long_upper: Seq<char>, short_lower: Seq<char>, short_upper: Seq<char>) -> Option<Seq<char>> {
    match strip_any_prefix(s, seq![long_lower, long_upper, short_lower, short_upper]) {
        Some(t) => strip_suffix(t, ")"@),
        None => None,
    }
}

/// The comma-separated pieces of `inner`, each trimmed.
pub open spec fn trimmed_parts(inner: Seq<char>) -> Seq<Seq<char>> {
    split(inner, ',').map_values(|p: Seq<char>| trim(p))
}

fn call_args_exec(s: &Vec<char>, long_lower: &str, long_upper: &str, short_lower: &str, short_upper: &str) -> (res: Option<Vec<char>>)
    ensures
        match res {
            Some(r) => call_args(s@, long_lower@, long_upper@, short_lower@, short_upper@) == Some(r@),
            None => call_args(s@, long_lower@, long_upper@, short_lower@, short_upper@) is None,
        },
{
    let ghost ps = seq![long_lower@, long_upper@, short_lower@, short_upper@];
    proof {
        assert(ps.drop_first() =~= seq![long_upper@, short_lower@, short_upper@]);
        assert(ps.drop_first().drop_first() =~= seq![short_lower@, short_upper@]);
        assert(ps.drop_first().drop_first().drop_first() =~= seq![short_upper@]);
        assert(ps.drop_first().drop_first().drop_first().drop_first() =~= Seq::<Seq<char>>::empty());
        reveal_with_fuel(strip_any_prefix, 5);
    }
    let inner = match without_prefix(s, &chars_of(long_lower)) {
        Some(t) => t,
        None => match without_prefix(s, &chars_of(long_upper)) {
            Some(t) => t,
            None => match without_prefix(s, &chars_of(short_lower)) {
                Some(t) => t,
                None => match without_prefix(s, &chars_of(short_upper)) {
                    Some(t) => t,
                    None => return None,
                },
            },
        },
    };
    without_suffix(&inner, &chars_of(")"))
}

/// The trimmed comma-separated pieces of `inner`.
fn trimmed_parts_exec(inner: &Vec<char>) -> (res: Vec<Vec<char>>)
    ensures
        res@.len() == trimmed_parts(inner@).len(),
        forall|i: int| 0 <= i < res@.len() ==> (#[trigger] res@[i])@ == trimmed_parts(inner@)[i],
{
    let raw = split_chars(inner, ',');
    let mut out: Vec<Vec<char>> = Vec::new();
    let mut k: usize = 0;
    while k < raw.len()
        invariant
            0 <= k <= raw@.len(),
            raw@.len() == split(inner@, ',').len(),
            forall|i: int| 0 <= i < raw@.len() ==> (#[trigger] raw@[i])@ == split(inner@, ',')[i],
            out@.len() == k,
            forall|i: int| 0 <= i < k ==> (#[trigger] out@[i])@ == trim(split(inner@, ',')[i]),
        decreases raw@.len() - k,
    {
        out.push(trim_chars(&raw[k]));
        k = k + 1;
    }
    out
}

/// What an `rgb()`/`rgba()` text gives: the three bytes, the alpha text, or
/// the first error met.
pub open spec fn rgb_parts(s: Seq<char>) -> Result<(u8, u8, u8, Option<Seq<char>>), ColorError> {
    match call_args(s, "rgba("@, "RGBA("@, "rgb("@, "RGB("@) {
        None => Err(ColorError::InvalidRgbFormat),
        Some(inner) => {
            let parts = trimmed_parts(inner);
            if parts.len() != 3 && parts.len() != 4 {
                Err(ColorError::RgbComponentCount)
            } else {
                let r = parse_int(parts[0], 10, 0, 255, false);
                let g = parse_int(parts[1], 10, 0, 255, false);
                let b = parse_int(parts[2], 10, 0, 255, false);
                if r is Err {
                    Err(ColorError::InvalidRgbComponent(arbitrary()))
                } else if g is Err {
                    Err(ColorError::InvalidRgbComponent(arbitrary()))
                } else if b is Err {
                    Err(ColorError::InvalidRgbComponent(arbitrary()))
                } else {
                    Ok(
                        (
                            r->Ok_0 as u8,
                            g->Ok_0 as u8,
                            b->Ok_0 as u8,
                            if parts.len() == 4 {
                                Some(parts[3])
                            } else {
                                None
                            },
                        ),
                    )
                }
            }
        },
    }
}

/// The component text whose error `rgb_parts` reports.
pub open spec fn rgb_failing_component(s: Seq<char>) -> Seq<char> {
    let parts = trimmed_parts(call_args(s, "rgba("@, "RGBA("@, "rgb("@, "RGB("@)->Some_0);
    if parse_int(parts[0], 10, 0, 255, false) is Err {
        parts[0]
    } else if parse_int(parts[1], 10, 0, 255, false) is Err {
        parts[1]
    } else {
        parts[2]
    }
}

/// Whether `res` is what `rgb_parts(s)` describes.
pub open spec fn rgb_result_ok(s: Seq<char>, res: Result<RgbParts, ColorError>) -> bool {
    match res {
        Ok(p) => rgb_parts(s) is Ok && {
            let (r, g, b, a) = rgb_parts(s)->Ok_0;
            &&& p.r == r
            &&& p.g == g
            &&& p.b == b
            &&& match (p.alpha, a) {
                (Some(x), Some(y)) => x@ == y,
                (None, None) => true,
                _ => false,
            }
        },
        Err(ColorError::InvalidRgbComponent(v)) => rgb_parts(s) matches Err(
            ColorError::InvalidRgbComponent(_),
        ) && v@ == rgb_failing_component(s),
        Err(e) => rgb_parts(s) == Err::<(u8, u8, u8, Option<Seq<char>>), ColorError>(e),
    }
}

fn component(part: &Vec<char>) -> (res: Result<u8, ColorError>)
    ensures
        match res {
            Ok(v) => parse_int(part@, 10, 0, 255, false) == Ok::<int, IntErrorKind>(v as int),
            Err(e) => parse_int(part@, 10, 0, 255, false) is Err && (match e {
                ColorError::InvalidRgbComponent(v) => v@ == part@,
                _ => false,
            }),
        },
{
    match parse_unsigned(part, 10, 255) {
        Ok(v) => Ok(v as u8),
        Err(_) => Err(ColorError::InvalidRgbComponent(string_from_chars(part))),
    }
}


/// Reads an `rgb(r, g, b)` or `rgba(r, g, b, a)` text (either case).
pub fn parse_rgb(s: &str) -> (res: Result<RgbParts, ColorError>)
    ensures
        rgb_result_ok(s@, res),
{
    let chars = chars_of(s);
    let inner = match call_args_exec(&chars, "rgba(", "RGBA(", "rgb(", "RGB(") {
        Some(t) => t,
        None => return Err(ColorError::InvalidRgbFormat),
    };
    let parts = trimmed_parts_exec(&inner);
    if parts.len() != 3 && parts.len() != 4 {
        return Err(ColorError::RgbComponentCount);
    }
    let r = match component(&parts[0]) {
        Ok(v) => v,
        Err(e) => return Err(e),
    };
    let g = match component(&parts[1]) {
        Ok(v) => v,
        Err(e) => return Err(e),
    };
    let b = match component(&parts[2]) {
        Ok(v) => v,
        Err(e) => return Err(e),
    };
    let alpha = if parts.len() == 4 {
        Some(string_from_chars(&parts[3]))
    } else {
        None
    };
    Ok(RgbParts { r, g, b, alpha })
}

/// `s` without its trailing `%` signs (`trim_end_matches('%')`).
pub open spec fn trim_percent(s: Seq<char>) -> Seq<char>
    decreases s.len(),
{
    if s.len() > 0 && s.last() == '%' {
        trim_percent(s.drop_last())
    } else {
        s
    }
}

fn trim_percent_exec(s: &Vec<char>) -> (res: Vec<char>)
    ensures
        res@ == trim_percent(s@),
{
    let mut j: usize = s.len();
    assert(s@.take(s@.len() as int) =~= s@);
    while j > 0 && s[j - 1] == '%'
        invariant
            0 <= j <= s@.len(),
            trim_percent(s@) == trim_percent(s@.take(j as int)),
        decreases j,
    {
        assert(s@.take(j as int).drop_last() =~= s@.take(j - 1));
        j = j - 1;
    }
    assert(s@.take(s@.len() as int) =~= s@);
    crate::text::subrange(s, 0, j)
}

/// What an `hsl()`/`hsla()` text gives: its component texts, or an error.
pub open spec fn hsl_parts(s: Seq<char>) -> Result<(Seq<char>, Seq<char>, Seq<char>, Option<Seq<char>>), ColorError> {
    match call_args(s, "hsla("@, "HSLA("@, "hsl("@, "HSL("@) {
        None => Err(ColorError::InvalidHslFormat),
        Some(inner) => {
            let parts = trimmed_parts(inner);
            if parts.len() != 3 && parts.len() != 4 {
                Err(ColorError::HslComponentCount)
            } else {
                Ok(
                    (
                        parts[0],
                        trim_percent(parts[1]),
                        trim_percent(parts[2]),
                        if parts.len() == 4 {
                            Some(parts[3])
                        } else {
                            None
                        },
                    ),
                )
            }
        },
    }
}

/// Reads an `hsl(h, s%, l%)` or `hsla(h, s%, l%, a)` text into its component texts.
pub fn parse_hsl(s: &str) -> (res: Result<HslParts, ColorError>)
    ensures
        match res {
            Ok(p) => hsl_parts(s@) is Ok && {
                let (h, sat, l, a) = hsl_parts(s@)->Ok_0;
                &&& p.hue@ == h
                &&& p.saturation@ == sat
                &&& p.lightness@ == l
                &&& match (p.alpha, a) {
                    (Some(x), Some(y)) => x@ == y,
                    (None, None) => true,
                    _ => false,
                }
            },
            Err(e) => hsl_parts(s@) == Err::<(Seq<char>, Seq<char>, Seq<char>, Option<Seq<char>>), ColorError>(e),
        },
{
    let chars = chars_of(s);
    let inner = match call_args_exec(&chars, "hsla(", "HSLA(", "hsl(", "HSL(") {
        Some(t) => t,
        None => return Err(ColorError::InvalidHslFormat),
    };
    let parts = trimmed_parts_exec(&inner);
    if parts.len() != 3 && parts.len() != 4 {
        return Err(ColorError::HslComponentCount);
    }
    let hue = string_from_chars(&parts[0]);
    let saturation = string_from_chars(&trim_percent_exec(&parts[1]));
    let lightness = string_from_chars(&trim_percent_exec(&parts[2]));
    let alpha = if parts.len() == 4 {
        Some(string_from_chars(&parts[3]))
    } else {
        None
    };
    Ok(HslParts { hue, saturation, lightness, alpha })
}

/// Which form a (trimmed) colour text has: `#` hex, `rgb`/`RGB` or `hsl`/`HSL`.
pub open spec fn color_form(t: Seq<char>) -> u8 {
    if strip_prefix(t, "#"@) is Some {
        0
    } else if strip_prefix(t, "rgb"@) is Some || strip_prefix(t, "RGB"@) is Some {
        1
    } else if strip_prefix(t, "hsl"@) is Some || strip_prefix(t, "HSL"@) is Some {
        2
    } else {
        3
    }
}

/// Reads a colour text after trimming it: `#RRGGBB[AA]`, `rgb()`/`rgba()`
/// or `hsl()`/`hsla()`.
pub fn parse(input: &str) -> (res: Result<ColorInput, ColorError>)
    ensures
        ({
            let t = trim(input@);
            match color_form(t) {
                0 => match res {
                    Ok(ColorInput::Hex(c)) => hex_color(t.drop_first()) == Ok::<HexColor, ColorError>(c),
                    Err(e) => hex_color(t.drop_first()) == Err::<HexColor, ColorError>(e),
                    _ => false,
                },
                1 => match res {
                    Ok(ColorInput::Rgb(p)) => rgb_result_ok(t, Ok(p)),
                    Err(e) => rgb_result_ok(t, Err(e)),
                    _ => false,
                },
                2 => match res {
                    Ok(ColorInput::Hsl(p)) => hsl_parts(t) is Ok && {
                        let (h, sat, l, a) = hsl_parts(t)->Ok_0;
                        &&& p.hue@ == h
                        &&& p.saturation@ == sat
                        &&& p.lightness@ == l
                        &&& match (p.alpha, a) {
                            (Some(x), Some(y)) => x@ == y,
                            (None, None) => true,
                            _ => false,
                        }
                    },
                    Err(e) => hsl_parts(t) == Err::<(Seq<char>, Seq<char>, Seq<char>, Option<Seq<char>>), ColorError>(e),
                    _ => false,
                },
                _ => res matches Err(ColorError::UnsupportedFormat),
            }
        }),
{
    let t = trim_chars(&chars_of(input));
    let text = string_from_chars(&t);
    proof {
        reveal_strlit("#");
    }
    if let Some(hex) = without_prefix(&t, &chars_of("#")) {
        assert(hex@ =~= t@.drop_first());
        let h = string_from_chars(&hex);
        match parse_hex(h.as_str()) {
            Ok(c) => Ok(ColorInput::Hex(c)),
            Err(e) => Err(e),
        }
    } else if crate::text::has_prefix(&t, &chars_of("rgb")) || crate::text::has_prefix(
        &t,
        &chars_of("RGB"),
    ) {
        match parse_rgb(text.as_str()) {
            Ok(p) => Ok(ColorInput::Rgb(p)),
            Err(e) => Err(e),
        }
    } else if crate::text::has_prefix(&t, &chars_of("hsl")) || crate::text::has_prefix(
        &t,
        &chars_of("HSL"),
    ) {
        match parse_hsl(text.as_str()) {
            Ok(p) => Ok(ColorInput::Hsl(p)),
            Err(e) => Err(e),
        }
    } else {
        Err(ColorError::UnsupportedFormat)
    }
}

/// `#` followed by two uppercase hexadecimal digits per byte.
pub open spec fn hex_color_text(bytes: Seq<u8>) -> Seq<char> {
    seq!['#'] + hex_text(bytes, false)
}

fn hash_hex(bytes: &[u8]) -> (res: String)
    ensures
        res@ == hex_color_text(bytes@),
{
    let mut out: Vec<char> = Vec::new();
    out.push('#');
    push_hex(&mut out, bytes, false);
    string_from_chars(&out)
}

/// `#RRGGBB`.
pub fn to_hex(r: u8, g: u8, b: u8) -> (res: String)
    ensures
        res@ == hex_color_text(seq![r, g, b]),
{
    let bytes = [r, g, b];
    assert(bytes@ =~= seq![r, g, b]);
    hash_hex(&bytes)
}

/// `#RRGGBBAA`.
pub fn to_rgba_hex(r: u8, g: u8, b: u8, alpha: u8) -> (res: String)
    ensures
        res@ == hex_color_text(seq![r, g, b, alpha]),
{
    let bytes = [r, g, b, alpha];
    assert(bytes@ =~= seq![r, g, b, alpha]);
    hash_hex(&bytes)
}

/// `#AARRGGBB`.
pub fn to_argb_hex(alpha: u8, r: u8, g: u8, b: u8) -> (res: String)
    ensures
        res@ == hex_color_text(seq![alpha, r, g, b]),
{
    let bytes = [alpha, r, g, b];
    assert(bytes@ =~= seq![alpha, r, g, b]);
    hash_hex(&bytes)
}

proof fn lemma_hex_digit_value(d: nat)
    requires
        d < 16,
    ensures
        digit_value(hex_digit(d, false), 16) == Some(d),
{
}

/// Reading the digits of `#RRGGBB` or `#RRGGBBAA` gives back the bytes.
pub proof fn lemma_hex_color_roundtrip(r: u8, g: u8, b: u8, alpha: Option<u8>)
    ensures
        hex_color(
            hex_text(
                match alpha {
                    Some(a) => seq![r, g, b, a],
                    None => seq![r, g, b],
                },
                false,
            ),
        ) == Ok::<HexColor, ColorError>(HexColor { r, g, b, alpha }),
{
    let bytes = match alpha {
        Some(a) => seq![r, g, b, a],
        None => seq![r, g, b],
    };
    let t = hex_text(bytes, false);
    assert forall|i: int| 0 <= i < t.len() implies is_hex_digit(#[trigger] t[i]) by {
        let v = bytes[i / 2];
        if i % 2 == 0 {
            lemma_hex_digit_value((v / 16) as nat);
        } else {
            lemma_hex_digit_value((v % 16) as nat);
        }
    }
    assert forall|k: int| 0 <= k < bytes.len() implies hex_pair(t[2 * k], t[2 * k + 1])
        == bytes[k] by {
        let v = bytes[k];
        assert((2 * k) / 2 == k);
        assert((2 * k + 1) / 2 == k);
        assert((2 * k) % 2 == 0);
        assert((2 * k + 1) % 2 == 1);
        lemma_hex_digit_value((v / 16) as nat);
        lemma_hex_digit_value((v % 16) as nat);
    }
    assert(hex_pair(t[0], t[1]) == r);
    assert(hex_pair(t[2], t[3]) == g);
    assert(hex_pair(t[4], t[5]) == b);
    if let Some(a) = alpha {
        assert(hex_pair(t[6], t[7]) == a);
    }
}
} // verus!
