//! What the command line prints: key/value reports, padding and colour swatches.

use crate::radix::decimal;
use owo_colors::OwoColorize;
use vstd::prelude::*;

verus! {

/// One printed line of a report.
pub enum ReportLine {
    /// A key, padded with spaces to `width` characters, followed by a value.
    Pair { key: String, value: String, width: usize },
    /// A line printed as it is.
    Text(String),
}

/// A titled block of lines: what one command prints between its header and footer.
pub struct Report {
    pub header: String,
    pub lines: Vec<ReportLine>,
}

/// Number of spaces that pad `key` to `max_length` characters (none when longer).
pub open spec fn padding_len(key: Seq<char>, max_length: nat) -> nat {
    if key.len() < max_length {
        (max_length - key.len()) as nat
    } else {
        0
    }
}

/// `n` spaces.
pub open spec fn spaces(n: nat) -> Seq<char> {
    Seq::new(n, |i: int| ' ')
}

/// The spaces that follow `key` so that the value starts at column `max_length`.
pub fn gen_padding(key: &str, max_length: usize) -> (res: String)
    ensures
        res@ == spaces(padding_len(key@, max_length as nat)),
{
    let chars = crate::text::chars_of(key);
    let n: usize = if chars.len() < max_length {
        max_length - chars.len()
    } else {
        0
    };
    let mut out: Vec<char> = Vec::new();
    let mut i: usize = 0;
    while i < n
        invariant
            0 <= i <= n,
            out@ =~= spaces(i as nat),
        decreases n - i,
    {
        out.push(' ');
        i = i + 1;
    }
    crate::text::string_from_chars(&out)
}

/// The ANSI escape `ESC[48;2;R;G;Bm` that selects a 24-bit background colour.
pub open spec fn background_escape(r: u8, g: u8, b: u8) -> Seq<char> {
    seq!['\x1b', '[', '4', '8', ';', '2', ';'] + decimal(r as int) + seq![';'] + decimal(g as int)
        + seq![';'] + decimal(b as int) + seq!['m']
}

/// `text` shown on a 24-bit background colour, followed by `ESC[49m`, which
/// restores the default background.
pub open spec fn on_background(text: Seq<char>, r: u8, g: u8, b: u8) -> Seq<char> {
    background_escape(r, g, b) + text + seq!['\x1b', '[', '4', '9', 'm']
}

/// Formats `text.on_truecolor(r, g, b)` of `owo_colors`. Its `Display` writes
/// `ESC[48;2;{r};{g};{b}m`, then the text, then `ESC[49m`; the contract
/// states exactly that.
#[verifier::external_body]
fn truecolor_background(text: &str, r: u8, g: u8, b: u8) -> (res: String)
    ensures
        res@ == on_background(text@, r, g, b),
{
    format!("{}", text.on_truecolor(r, g, b))
}

/// Two spaces on the given colour: a colour sample for a terminal.
pub fn swatch(r: u8, g: u8, b: u8) -> (res: String)
    ensures
        res@ == on_background(seq![' ', ' '], r, g, b),
{
    let two = "  ";
    proof {
        reveal_strlit("  ");
    }
    truecolor_background(two, r, g, b)
}

} // verus!
