//! The UUID tool of the desktop application: a number of new UUIDs of the
//! chosen version, with or without hyphens.

use crate::cmd::uuid::{generate, uuid_text_of, Version};
use crate::radix::{
    decimal, digit_value, lemma_digits_parse_back, lemma_radix_digits_value, parse_int, parse_unsigned,
    radix_digits,
};
use crate::text::{chars_of, is_white_space, trim, trim_chars, trim_end, trim_start};
use vstd::prelude::*;

verus! {

/// The fewest UUIDs made at once.
pub const MIN_COUNT: usize = 1;

/// The most UUIDs made at once.
pub const MAX_COUNT: usize = 100;

/// How many UUIDs a count text asks for: the decimal number it holds
/// (surrounding white space allowed), 1 when it holds none, kept within
/// `MIN_COUNT..=MAX_COUNT`.
pub open spec fn requested_count(raw: Seq<char>) -> int {
    let n = match parse_int(trim(raw), 10, 0, usize::MAX as int, false) {
        Ok(v) => v,
        Err(_) => MIN_COUNT as int,
    };
    if n < MIN_COUNT {
        MIN_COUNT as int
    } else if n > MAX_COUNT {
        MAX_COUNT as int
    } else {
        n
    }
}

/// The count a count text asks for.
pub fn count_from_text(raw: &str) -> (res: usize)
    ensures
        res == requested_count(raw@),
        MIN_COUNT <= res <= MAX_COUNT,
{
    let t = trim_chars(&chars_of(raw));
    let n: u64 = match parse_unsigned(&t, 10, usize::MAX as u64) {
        Ok(v) => v,
        Err(_) => 1,
    };
    if n < 1 {
        MIN_COUNT
    } else if n > 100 {
        MAX_COUNT
    } else {
        n as usize
    }
}

/// The state of the UUID tool.
pub struct UuidPanel {
    /// The version to make.
    pub version: Version,
    /// Whether to write the hyphens.
    pub dashed: bool,
    /// The UUIDs last made.
    pub result: Option<Vec<String>>,
}

impl UuidPanel {
    /// The tool at start: version 4, with hyphens, nothing made.
    pub fn new() -> (res: Self)
        ensures
            res.version == Version::V4,
            res.dashed,
            res.result is None,
    {
        UuidPanel { version: Version::V4, dashed: true, result: None }
    }

    /// Makes as many UUIDs as the count text asks for.
    pub fn generate(&mut self, raw_count: &str)
        ensures
            final(self).version == old(self).version,
            final(self).dashed == old(self).dashed,
            final(self).result matches Some(v) && v@.len() == requested_count(raw_count@) && forall|
                i: int,
            |
                0 <= i < v@.len() ==> uuid_text_of(
                    (#[trigger] v@[i])@,
                    old(self).version,
                    old(self).dashed,
                ),
    {
        let count = count_from_text(raw_count);
        self.result = Some(generate(self.version, count, self.dashed));
    }

    /// Chooses the version and forgets the UUIDs made.
    pub fn select_version(&mut self, version: Version)
        ensures
            final(self).version == version,
            final(self).dashed == old(self).dashed,
            final(self).result is None,
    {
        self.version = version;
        self.result = None;
    }

    /// Chooses whether to write hyphens and forgets the UUIDs made.
    pub fn select_style(&mut self, dashed: bool)
        ensures
            final(self).version == old(self).version,
            final(self).dashed == dashed,
            final(self).result is None,
    {
        self.dashed = dashed;
        self.result = None;
    }

    /// Forgets the UUIDs made.
    pub fn clear(&mut self)
        ensures
            final(self).version == old(self).version,
            final(self).dashed == old(self).dashed,
            final(self).result is None,
    {
        self.result = None;
    }
}

/// The count text is read in decimal: the decimal text of any count in
/// `MIN_COUNT..=MAX_COUNT` asks for exactly that count, with or without
/// surrounding spaces.
pub proof fn lemma_decimal_count(n: int)
    requires
        MIN_COUNT <= n <= MAX_COUNT,
    ensures
        requested_count(decimal(n)) == n,
        requested_count(seq![' '] + decimal(n) + seq![' ']) == n,
{
    let d = radix_digits(n as nat, 10);
    assert(decimal(n) == d);
    lemma_radix_digits_value(n as nat, 10);
    lemma_digits_parse_back(n as nat, 10, 0, usize::MAX as int, false);
    assert(digit_value(d[0], 10) is Some);
    assert(digit_value(d.last(), 10) is Some);
    assert(!is_white_space(d[0]));
    assert(!is_white_space(d.last()));
    assert(trim_start(d) == d);
    assert(trim_end(d) == d);
    let padded = seq![' '] + d + seq![' '];
    assert(is_white_space(' '));
    assert(padded.drop_first() =~= d + seq![' ']);
    assert(trim_start(padded) == trim_start(d + seq![' ']));
    assert((d + seq![' '])[0] == d[0]);
    assert(trim_start(d + seq![' ']) == d + seq![' ']);
    assert((d + seq![' ']).drop_last() =~= d);
    assert(trim_end(d + seq![' ']) == trim_end(d));
}

} // verus!
