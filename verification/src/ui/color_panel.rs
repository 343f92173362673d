//! The hexadecimal colour reader of the desktop application's colour tool:
//! `#RRGGBB` or `#RRGGBBAA`, read two bytes at a time.

use crate::locale::L10n;
use crate::hexfmt::{hex_digit, hex_text};
use crate::radix::{digit_value, parse_int, parse_unsigned};
use crate::text::{chars_of, string_from_chars};
use vstd::prelude::*;
use vstd::utf8::{encode_utf8, is_ascii_chars};

verus! {

broadcast use vstd::utf8::group_utf8_lib;

/// `s` without its leading `#` signs (`str::trim_start_matches('#')`).
pub open spec fn strip_hashes(s: Seq<char>) -> Seq<char>
    decreases s.len(),
{
    if s.len() > 0 && s[0] == '#' {
        strip_hashes(s.drop_first())
    } else {
        s
    }
}

/// The value of two bytes read as a hexadecimal `u8` (`u8::from_str_radix`
/// with radix 16, which also takes a leading `+`), or `None`.
pub open spec fn hex_pair_value(b0: u8, b1: u8) -> Option<u8> {
    if b0 < 128 && b1 < 128 {
        match parse_int(seq![b0 as char, b1 as char], 16, 0, 255, false) {
            Ok(v) => Some(v as u8),
            Err(_) => None,
        }
    } else {
        None
    }
}

/// Whether byte `b` continues a UTF-8 character rather than starting one.
pub open spec fn is_continuation(b: u8) -> bool {
    0x80 <= b < 0xC0
}

/// Whether reading the text two bytes at a time cuts no character in two:
/// the cuts at bytes 2, 4 and 6 fall between characters.
pub open spec fn cuts_between_chars(s: Seq<char>) -> bool {
    let b = encode_utf8(strip_hashes(s));
    (b.len() == 6 || b.len() == 8) ==> !is_continuation(b[2]) && !is_continuation(b[4]) && (
    b.len() == 8 ==> !is_continuation(b[6]))
}

/// The red, green and blue bytes of a colour and, with eight digits, its
/// alpha byte.
#[derive(Clone, Copy, Debug, PartialEq, Eq, Structural)]
pub struct HexParts {
    pub r: u8,
    pub g: u8,
    pub b: u8,
    pub alpha: Option<u8>,
}

/// What the colour tool reads from a hexadecimal colour: after the leading
/// `#` signs, six or eight bytes, each pair a hexadecimal byte.
pub open spec fn panel_hex(s: Seq<char>) -> Option<HexParts> {
    let b = encode_utf8(strip_hashes(s));
    if b.len() != 6 && b.len() != 8 {
        None
    } else {
        match (hex_pair_value(b[0], b[1]), hex_pair_value(b[2], b[3]), hex_pair_value(b[4], b[5])) {
            (Some(r), Some(g), Some(bl)) => if b.len() == 8 {
                match hex_pair_value(b[6], b[7]) {
                    Some(a) => Some(HexParts { r, g, b: bl, alpha: Some(a) }),
                    None => None,
                }
            } else {
                Some(HexParts { r, g, b: bl, alpha: None })
            },
            _ => None,
        }
    }
}

fn strip_hashes_exec(s: &str) -> (res: String)
    ensures
        res@ == strip_hashes(s@),
{
    let chars = chars_of(s);
    let mut i: usize = 0;
    assert(chars@.skip(0) =~= chars@);
    while i < chars.len() && chars[i] == '#'
        invariant
            0 <= i <= chars@.len(),
            chars@ == s@,
            strip_hashes(chars@.skip(i as int)) == strip_hashes(s@),
        decreases chars@.len() - i,
    {
        assert(chars@.skip(i as int).drop_first() =~= chars@.skip(i + 1));
        i = i + 1;
    }
    let rest = crate::text::subrange(&chars, i, chars.len());
    assert(rest@ =~= chars@.skip(i as int));
    string_from_chars(&rest)
}

fn pair(b0: u8, b1: u8) -> (res: Option<u8>)
    ensures
        res == hex_pair_value(b0, b1),
{
    if b0 >= 128 || b1 >= 128 {
        return None;
    }
    let mut digits: Vec<char> = Vec::new();
    digits.push(b0 as char);
    digits.push(b1 as char);
    assert(digits@ =~= seq![b0 as char, b1 as char]);
    match parse_unsigned(&digits, 16, 255) {
        Ok(v) => Some(v as u8),
        Err(_) => None,
    }
}

/// Whether the text can be read two bytes at a time (see
/// `cuts_between_chars`); the colour tool stops on texts where it cannot.
pub fn hex_cuts_ok(s: &str) -> (res: bool)
    ensures
        res == cuts_between_chars(s@),
{
    let t = strip_hashes_exec(s);
    let b = t.as_str().as_bytes();
    if b.len() != 6 && b.len() != 8 {
        return true;
    }
    let c2 = 0x80 <= b[2] && b[2] < 0xC0;
    let c4 = 0x80 <= b[4] && b[4] < 0xC0;
    let c6 = b.len() == 8 && 0x80 <= b[6] && b[6] < 0xC0;
    !c2 && !c4 && !c6
}

/// Reads a hexadecimal colour as the colour tool does.
pub fn parse_hex(s: &str) -> (res: Option<HexParts>)
    requires
        cuts_between_chars(s@),
    ensures
        res == panel_hex(s@),
{
    let t = strip_hashes_exec(s);
    let b = t.as_str().as_bytes();
    if b.len() != 6 && b.len() != 8 {
        return None;
    }
    let r = match pair(b[0], b[1]) {
        Some(v) => v,
        None => return None,
    };
    let g = match pair(b[2], b[3]) {
        Some(v) => v,
        None => return None,
    };
    let bl = match pair(b[4], b[5]) {
        Some(v) => v,
        None => return None,
    };
    if b.len() == 8 {
        match pair(b[6], b[7]) {
            Some(a) => Some(HexParts { r, g, b: bl, alpha: Some(a) }),
            None => None,
        }
    } else {
        Some(HexParts { r, g, b: bl, alpha: None })
    }
}

/// The colour notations the colour tool reads.
#[derive(Clone, Copy, Debug, PartialEq, Eq, Structural)]
pub enum ColorFormat {
    Hex,
    Rgb,
    Hsl,
}

/// The name of a notation in the given texts.
pub open spec fn format_name(f: ColorFormat, l10n: L10n) -> &'static str {
    match f {
        ColorFormat::Hex => l10n.color_hex,
        ColorFormat::Rgb => l10n.color_rgb,
        ColorFormat::Hsl => l10n.color_hsl,
    }
}

impl ColorFormat {
    /// The notations, in the order shown.
    pub fn all() -> (res: [ColorFormat; 3])
        ensures
            res@ == seq![ColorFormat::Hex, ColorFormat::Rgb, ColorFormat::Hsl],
    {
        let res = [ColorFormat::Hex, ColorFormat::Rgb, ColorFormat::Hsl];
        assert(res@ =~= seq![ColorFormat::Hex, ColorFormat::Rgb, ColorFormat::Hsl]);
        res
    }

    /// The name of the notation in the given texts.
    pub fn label(self, l10n: &L10n) -> (res: &'static str)
        ensures
            res == format_name(self, *l10n),
    {
        match self {
            ColorFormat::Hex => l10n.color_hex,
            ColorFormat::Rgb => l10n.color_rgb,
            ColorFormat::Hsl => l10n.color_hsl,
        }
    }
}

proof fn lemma_hex_digit_char(d: nat, lower: bool)
    requires
        d < 16,
    ensures
        digit_value(hex_digit(d, lower), 16) == Some(d),
        (hex_digit(d, lower) as u32) < 128,
        hex_digit(d, lower) != '+' && hex_digit(d, lower) != '#',
{
}

/// Two hexadecimal digits, as ASCII bytes, read as the byte they spell.
proof fn lemma_hex_pair_value(v: u8, lower: bool)
    ensures
        ({
            let c0 = hex_digit((v / 16) as nat, lower);
            let c1 = hex_digit((v % 16) as nat, lower);
            hex_pair_value(c0 as u8, c1 as u8) == Some(v)
        }),
{
    let d0 = (v / 16) as nat;
    let d1 = (v % 16) as nat;
    let c0 = hex_digit(d0, lower);
    let c1 = hex_digit(d1, lower);
    lemma_hex_digit_char(d0, lower);
    lemma_hex_digit_char(d1, lower);
    let b0 = c0 as u8;
    let b1 = c1 as u8;
    assert(b0 as char == c0 && b1 as char == c1);
    let t = seq![c0, c1];
    assert(t.drop_last() =~= seq![c0]);
    assert(seq![c0].drop_last() =~= Seq::<char>::empty());
    assert(seq![c0].last() == c0);
    assert(crate::radix::digits_value(Seq::<char>::empty(), 16) == 0);
    assert(crate::radix::digits_value(seq![c0], 16) == 0 * 16 + d0);
    assert(t.last() == c1);
    assert(crate::radix::digits_value(t, 16) == d0 * 16 + d1);
    assert(crate::radix::is_digit(c0, 16) && crate::radix::is_digit(c1, 16));
    assert(crate::radix::digit_prefix_len(seq![c1], 16) == 1) by {
        assert(seq![c1].drop_first() =~= Seq::<char>::empty());
        assert(seq![c1][0] == c1);
        assert(crate::radix::digit_prefix_len(Seq::<char>::empty(), 16) == 0);
    }
    assert(crate::radix::digit_prefix_len(t, 16) == 2) by {
        assert(t.drop_first() =~= seq![c1]);
    }
    assert(t.take(2) =~= t);
    assert(d0 * 16 + d1 == v);
}

/// The UTF-8 bytes of a hexadecimal text: ASCII, two per input byte, each
/// pair reading back as that byte.
proof fn lemma_hex_text_encoded(bytes: Seq<u8>, lower: bool)
    ensures
        ({
            let t = hex_text(bytes, lower);
            let e = encode_utf8(t);
            &&& e.len() == 2 * bytes.len()
            &&& forall|k: int| 0 <= k < e.len() ==> #[trigger] e[k] < 128
            &&& forall|k: int|
                0 <= k < bytes.len() ==> hex_pair_value(e[2 * k], e[2 * k + 1]) == Some(
                    #[trigger] bytes[k],
                )
            &&& bytes.len() > 0 ==> t[0] != '#'
        }),
{
    let t = hex_text(bytes, lower);
    assert forall|i: int| 0 <= i < t.len() implies (#[trigger] t[i] as u32) < 128 && t[i] != '#' by {
        let v = bytes[i / 2];
        if i % 2 == 0 {
            lemma_hex_digit_char((v / 16) as nat, lower);
        } else {
            lemma_hex_digit_char((v % 16) as nat, lower);
        }
    }
    assert(is_ascii_chars(t));
    vstd::utf8::is_ascii_chars_encode_utf8(t);
    let e = encode_utf8(t);
    assert forall|k: int| 0 <= k < e.len() implies #[trigger] e[k] < 128 by {
        assert(e[k] == t[k] as u8);
    }
    assert forall|k: int| 0 <= k < bytes.len() implies hex_pair_value(e[2 * k], e[2 * k + 1])
        == Some(#[trigger] bytes[k]) by {
        assert((2 * k) / 2 == k && (2 * k + 1) / 2 == k);
        assert((2 * k) % 2 == 0 && (2 * k + 1) % 2 == 1);
        assert(e[2 * k] == t[2 * k] as u8);
        assert(e[2 * k + 1] == t[2 * k + 1] as u8);
        lemma_hex_pair_value(bytes[k], lower);
    }
}

/// Reading `#` followed by the hexadecimal text (either case) of the bytes
/// `r, g, b` and, when given, `a`, gives those bytes back, in that order;
/// and such a text is one the colour tool reads without stopping.
pub proof fn lemma_panel_hex_roundtrip(r: u8, g: u8, b: u8, alpha: Option<u8>, lower: bool)
    ensures
        ({
            let bytes = match alpha {
                Some(a) => seq![r, g, b, a],
                None => seq![r, g, b],
            };
            let s = seq!['#'] + hex_text(bytes, lower);
            &&& cuts_between_chars(s)
            &&& panel_hex(s) == Some(HexParts { r, g, b, alpha })
        }),
{
    let bytes = match alpha {
        Some(a) => seq![r, g, b, a],
        None => seq![r, g, b],
    };
    let t = hex_text(bytes, lower);
    let s = seq!['#'] + t;
    lemma_hex_text_encoded(bytes, lower);
    let e = encode_utf8(t);
    assert(s.drop_first() =~= t);
    assert(strip_hashes(t) == t);
    assert(strip_hashes(s) == t);
    assert(bytes[0] == r && bytes[1] == g && bytes[2] == b);
    assert(hex_pair_value(e[2 * 0int], e[2 * 0int + 1]) == Some(bytes[0int]));
    assert(hex_pair_value(e[2 * 1int], e[2 * 1int + 1]) == Some(bytes[1int]));
    assert(hex_pair_value(e[2 * 2int], e[2 * 2int + 1]) == Some(bytes[2int]));
    assert(e[2] < 128 && e[4] < 128);
    if let Some(a) = alpha {
        assert(bytes[3] == a);
        assert(hex_pair_value(e[2 * 3int], e[2 * 3int + 1]) == Some(bytes[3int]));
        assert(e[6] < 128);
    }
}

} // verus!
