//! The number base tool of the desktop application: a number written in
//! one base, shown in bases 2, 8, 10 and 16.

use crate::cmd::base::{compute_num, number_value, Radix};
use crate::locale::L10n;
use crate::radix::{format_i64_radix, i64_radix_text};
use crate::text::{owned, string_from_chars, trim, trimmed};
use vstd::prelude::*;

verus! {

/// The state of the number base tool.
pub struct NumberBasePanel {
    /// The base the input is written in.
    pub input_base: Radix,
    /// The number in each base: the base's name and the digits.
    pub results: Vec<(String, String)>,
    /// The message shown when the input is not a number.
    pub error: Option<String>,
}

/// The views of a list of name and value pairs.
pub open spec fn pair_views(v: Seq<(String, String)>) -> Seq<(Seq<char>, Seq<char>)> {
    v.map_values(|p: (String, String)| (p.0@, p.1@))
}

/// The name of a base in the given texts.
pub open spec fn base_name(r: Radix, l10n: L10n) -> Seq<char> {
    match r {
        Radix::Binary => l10n.number_base_binary@,
        Radix::Octal => l10n.number_base_octal@,
        Radix::Decimal => l10n.number_base_decimal@,
        Radix::Hex => l10n.number_base_hex@,
    }
}

/// The number `n` in bases 2, 8, 10 and 16, each with its name (negative
/// numbers in bases 2, 8 and 16 as 64-bit two's complement).
pub open spec fn base_results(n: int, l10n: L10n) -> Seq<(Seq<char>, Seq<char>)> {
    seq![
        (base_name(Radix::Binary, l10n), i64_radix_text(n, 2)),
        (base_name(Radix::Octal, l10n), i64_radix_text(n, 8)),
        (base_name(Radix::Decimal, l10n), i64_radix_text(n, 10)),
        (base_name(Radix::Hex, l10n), i64_radix_text(n, 16)),
    ]
}

/// The state after converting `input`: nothing changes for blank input; a
/// number gives its four forms and clears the message; anything else shows
/// the error hint and no forms.
pub open spec fn converted(before: NumberBasePanel, after: NumberBasePanel, l10n: L10n, input: Seq<char>) -> bool {
    let t = trim(input);
    if t.len() == 0 {
        after == before
    } else {
        &&& after.input_base == before.input_base
        &&& match number_value(t, before.input_base) {
            Ok(n) => pair_views(after.results@) == base_results(n, l10n) && after.error is None,
            Err(_) => after.results@.len() == 0 && (after.error matches Some(e) && e@
                == l10n.error_hint@),
        }
    }
}

impl NumberBasePanel {
    /// The tool at start: decimal input, nothing shown.
    pub fn new() -> (res: Self)
        ensures
            res.input_base == Radix::Decimal,
            res.results@.len() == 0,
            res.error is None,
    {
        NumberBasePanel { input_base: Radix::Decimal, results: Vec::new(), error: None }
    }

    /// Converts the number written in the input.
    pub fn convert_base(&mut self, l10n: &L10n, input: &str)
        ensures
            converted(*old(self), *final(self), *l10n, input@),
    {
        let t = trimmed(input);
        if t.as_str().is_empty() {
            return;
        }
        match compute_num(t.as_str(), self.input_base) {
            Ok(n) => {
                let mut results: Vec<(String, String)> = Vec::new();
                results.push((owned(l10n.number_base_binary), string_from_chars(&format_i64_radix(n, 2))));
                results.push((owned(l10n.number_base_octal), string_from_chars(&format_i64_radix(n, 8))));
                results.push((owned(l10n.number_base_decimal), string_from_chars(&format_i64_radix(n, 10))));
                results.push((owned(l10n.number_base_hex), string_from_chars(&format_i64_radix(n, 16))));
                assert(pair_views(results@) =~= base_results(n as int, *l10n));
                self.results = results;
                self.error = None;
            },
            Err(_) => {
                self.error = Some(owned(l10n.error_hint));
                self.results = Vec::new();
            },
        }
    }

    /// Chooses the base of the input: converts again when there is input,
    /// else clears what is shown.
    pub fn select_input_base(&mut self, l10n: &L10n, input_base: Radix, input: &str)
        ensures
            trim(input@).len() > 0 ==> converted(
                NumberBasePanel { input_base, ..*old(self) },
                *final(self),
                *l10n,
                input@,
            ),
            trim(input@).len() == 0 ==> final(self).input_base == input_base
                && final(self).results@.len() == 0 && final(self).error is None,
    {
        self.input_base = input_base;
        let t = trimmed(input);
        if !t.as_str().is_empty() {
            self.convert_base(l10n, input);
        } else {
            self.results = Vec::new();
            self.error = None;
        }
    }

    /// Clears what is shown; the base stays.
    pub fn clear(&mut self)
        ensures
            final(self).input_base == old(self).input_base,
            final(self).results@.len() == 0,
            final(self).error is None,
    {
        self.results = Vec::new();
        self.error = None;
    }
}

/// The name of a base in the given texts.
pub fn base_label(r: Radix, l10n: &L10n) -> (res: &'static str)
    ensures
        res@ == base_name(r, *l10n),
{
    match r {
        Radix::Binary => l10n.number_base_binary,
        Radix::Octal => l10n.number_base_octal,
        Radix::Decimal => l10n.number_base_decimal,
        Radix::Hex => l10n.number_base_hex,
    }
}

/// The bases the input may be written in, in the order shown.
pub fn input_bases() -> (res: [Radix; 4])
    ensures
        res@ == seq![Radix::Binary, Radix::Octal, Radix::Decimal, Radix::Hex],
{
    let res = [Radix::Binary, Radix::Octal, Radix::Decimal, Radix::Hex];
    assert(res@ =~= seq![Radix::Binary, Radix::Octal, Radix::Decimal, Radix::Hex]);
    res
}

} // verus!
