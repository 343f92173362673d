//! Integers written in a radix: parsing with the rules of `from_str_radix`,
//! and the digit strings that `{:b}`, `{:o}`, `{}` and `{:x}` print.

use vstd::prelude::*;

verus! {

/// Why a text is not an integer of the requested type.
#[derive(Clone, Copy, Debug, PartialEq, Eq, Structural)]
pub enum IntErrorKind {
    /// The text is empty.
    Empty,
    /// A character is not a digit of the radix, or only a sign is given.
    InvalidDigit,
    /// The value is above the type's maximum.
    PosOverflow,
    /// The value is below the type's minimum.
    NegOverflow,
}

/// The message that `ParseIntError` displays for each kind of error.
pub open spec fn int_error_message(e: IntErrorKind) -> Seq<char> {
    match e {
        IntErrorKind::Empty => "cannot parse integer from empty string"@,
        IntErrorKind::InvalidDigit => "invalid digit found in string"@,
        IntErrorKind::PosOverflow => "number too large to fit in target type"@,
        IntErrorKind::NegOverflow => "number too small to fit in target type"@,
    }
}

impl IntErrorKind {
    /// The message shown for the error.
    pub fn message(&self) -> (res: String)
        ensures
            res@ == int_error_message(*self),
    {
        let s = match self {
            IntErrorKind::Empty => "cannot parse integer from empty string",
            IntErrorKind::InvalidDigit => "invalid digit found in string",
            IntErrorKind::PosOverflow => "number too large to fit in target type",
            IntErrorKind::NegOverflow => "number too small to fit in target type",
        };
        crate::text::owned(s)
    }
}

/// Value of `c` as a digit of `radix`: `0-9`, then `a-z` or `A-Z` from ten on.
pub open spec fn digit_value(c: char, radix: nat) -> Option<nat> {
    let k = c as int;
    let v: int = if 48 <= k <= 57 {
        k - 48
    } else if 97 <= k <= 122 {
        k - 97 + 10
    } else if 65 <= k <= 90 {
        k - 65 + 10
    } else {
        36
    };
    if v < radix {
        Some(v as nat)
    } else {
        None
    }
}

pub open spec fn is_digit(c: char, radix: nat) -> bool {
    digit_value(c, radix) is Some
}

/// Number of leading characters of `s` that are digits of `radix`.
pub open spec fn digit_prefix_len(s: Seq<char>, radix: nat) -> nat
    decreases s.len(),
{
    if s.len() == 0 {
        0
    } else if is_digit(s[0], radix) {
        1 + digit_prefix_len(s.drop_first(), radix)
    } else {
        0
    }
}

/// Value of a string of digits, most significant first (non-digits count as zero).
pub open spec fn digits_value(s: Seq<char>, radix: nat) -> nat
    decreases s.len(),
{
    if s.len() == 0 {
        0
    } else {
        let d = match digit_value(s.last(), radix) {
            Some(v) => v,
            None => 0,
        };
        digits_value(s.drop_last(), radix) * radix + d
    }
}

/// What `from_str_radix` gives for the text `s` for an integer type with the
/// bounds `min..=max`; `signed` says whether a leading `-` is accepted.
/// Scanning stops at the first non-digit or at the first overflow, whichever
/// comes first.
pub open spec fn parse_int(s: Seq<char>, radix: nat, min: int, max: int, signed: bool) -> Result<
    int,
    IntErrorKind,
> {
    if s.len() == 0 {
        Err(IntErrorKind::Empty)
    } else {
        let neg = signed && s[0] == '-';
        let body = if s[0] == '+' || neg {
            s.drop_first()
        } else {
            s
        };
        if body.len() == 0 {
            Err(IntErrorKind::InvalidDigit)
        } else {
            let p = digit_prefix_len(body, radix);
            let mag = digits_value(body.take(p as int), radix) as int;
            let n = if neg {
                -mag
            } else {
                mag
            };
            if n > max {
                Err(IntErrorKind::PosOverflow)
            } else if n < min {
                Err(IntErrorKind::NegOverflow)
            } else if p < body.len() {
                Err(IntErrorKind::InvalidDigit)
            } else {
                Ok(n)
            }
        }
    }
}

/// The lowercase digit character for `d` (`0-9` then `a-z`).
pub open spec fn digit_char(d: nat) -> char {
    if d < 10 {
        (48 + d) as char
    } else {
        (97 + d - 10) as char
    }
}

/// The digits of `v` in `radix`, most significant first, without leading zeros.
pub open spec fn radix_digits(v: nat, radix: nat) -> Seq<char>
    recommends
        radix >= 2,
    decreases v,
{
    if v < radix || radix < 2 {
        seq![digit_char(v)]
    } else {
        proof {
            assert(v / radix < v) by (nonlinear_arith)
                requires
                    radix >= 2,
                    v >= radix,
            ;
        }
        radix_digits(v / radix, radix).push(digit_char(v % radix))
    }
}

/// What `{:b}`, `{:o}`, `{}` or `{:x}` print for an `i64`: the decimal form
/// carries a `-` sign, the others print the two's complement bits.
pub open spec fn i64_radix_text(n: int, radix: nat) -> Seq<char> {
    if radix == 10 {
        if n < 0 {
            seq!['-'] + radix_digits((-n) as nat, 10)
        } else {
            radix_digits(n as nat, 10)
        }
    } else if n < 0 {
        radix_digits((n + 0x1_0000_0000_0000_0000) as nat, radix)
    } else {
        radix_digits(n as nat, radix)
    }
}

/// The decimal form of an integer, with a `-` sign when negative.
pub open spec fn decimal(n: int) -> Seq<char> {
    if n < 0 {
        seq!['-'] + radix_digits((-n) as nat, 10)
    } else {
        radix_digits(n as nat, 10)
    }
}

pub open spec fn valid_radix(radix: nat) -> bool {
    2 <= radix <= 36
}

/// Digit value of a character, as `char::to_digit` computes it.
pub fn digit_of(c: char, radix: u32) -> (res: Option<u32>)
    requires
        valid_radix(radix as nat),
    ensures
        match res {
            Some(v) => digit_value(c, radix as nat) == Some(v as nat),
            None => digit_value(c, radix as nat) is None,
        },
{
    let k = c as u32;
    let v: u32 = if 48 <= k && k <= 57 {
        k - 48
    } else if 97 <= k && k <= 122 {
        k - 97 + 10
    } else if 65 <= k && k <= 90 {
        k - 65 + 10
    } else {
        36
    };
    if v < radix {
        Some(v)
    } else {
        None
    }
}

proof fn lemma_digits_value_push(s: Seq<char>, c: char, radix: nat)
    ensures
        digits_value(s.push(c), radix) == digits_value(s, radix) * radix + match digit_value(
            c,
            radix,
        ) {
            Some(v) => v,
            None => 0,
        },
{
    assert(s.push(c).drop_last() =~= s);
}

proof fn lemma_take_push(s: Seq<char>, k: int)
    requires
        0 <= k < s.len(),
    ensures
        s.take(k + 1) =~= s.take(k).push(s[k]),
{
}

/// Appending digits never lowers the value of a digit string.
proof fn lemma_digits_value_monotone(s: Seq<char>, j: int, k: int, radix: nat)
    requires
        0 <= j <= k <= s.len(),
        radix >= 1,
    ensures
        digits_value(s.take(j), radix) <= digits_value(s.take(k), radix),
    decreases k - j,
{
    if j < k {
        lemma_digits_value_monotone(s, j, k - 1, radix);
        lemma_take_push(s, k - 1);
        lemma_digits_value_push(s.take(k - 1), s[k - 1], radix);
        let a = digits_value(s.take(k - 1), radix);
        assert(a * radix >= a) by (nonlinear_arith)
            requires
                radix >= 1,
        ;
    }
}

/// The digit prefix ends at the first non-digit.
proof fn lemma_digit_prefix_len(s: Seq<char>, i: int, radix: nat)
    requires
        0 <= i <= s.len(),
        forall|j: int| 0 <= j < i ==> is_digit(#[trigger] s[j], radix),
        i < s.len() ==> !is_digit(s[i], radix),
    ensures
        digit_prefix_len(s, radix) == i,
    decreases i,
{
    if s.len() > 0 && i > 0 {
        let t = s.drop_first();
        assert forall|j: int| 0 <= j < i - 1 implies is_digit(#[trigger] t[j], radix) by {
            assert(t[j] == s[j + 1]);
        }
        lemma_digit_prefix_len(t, i - 1, radix);
    }
}

/// A run of `m` leading digits lies inside the digit prefix.
proof fn lemma_digit_prefix_at_least(s: Seq<char>, m: int, radix: nat)
    requires
        0 <= m <= s.len(),
        forall|j: int| 0 <= j < m ==> is_digit(#[trigger] s[j], radix),
    ensures
        m <= digit_prefix_len(s, radix) <= s.len(),
    decreases s.len(),
{
    if s.len() > 0 {
        let t = s.drop_first();
        assert forall|j: int| 0 <= j < m - 1 implies is_digit(#[trigger] t[j], radix) by {
            assert(t[j] == s[j + 1]);
        }
        if m > 0 {
            assert(is_digit(s[0], radix));
            lemma_digit_prefix_at_least(t, m - 1, radix);
        } else {
            lemma_digit_prefix_at_least(t, 0, radix);
        }
    }
}

/// Parses a signed integer the way `i64::from_str_radix` does.
pub fn parse_i64(s: &Vec<char>, radix: u32) -> (res: Result<i64, IntErrorKind>)
    requires
        valid_radix(radix as nat),
    ensures
        match res {
            Ok(v) => parse_int(s@, radix as nat, i64::MIN as int, i64::MAX as int, true) == Ok::<
                int,
                IntErrorKind,
            >(v as int),
            Err(e) => parse_int(s@, radix as nat, i64::MIN as int, i64::MAX as int, true) == Err::<
                int,
                IntErrorKind,
            >(e),
        },
{
    let n = s.len();
    if n == 0 {
        return Err(IntErrorKind::Empty);
    }
    let neg = s[0] == '-';
    let start: usize = if s[0] == '+' || neg {
        1
    } else {
        0
    };
    let ghost body = if s@[0] == '+' || neg {
        s@.drop_first()
    } else {
        s@
    };
    assert(body =~= s@.subrange(start as int, n as int));
    if start == n {
        return Err(IntErrorKind::InvalidDigit);
    }
    let r = radix as i64;
    let mut acc: i64 = 0;
    let mut i: usize = start;
    while i < n
        invariant
            start <= i <= n,
            n == s@.len(),
            start < n,
            r == radix as i64,
            valid_radix(radix as nat),
            body =~= s@.subrange(start as int, n as int),
            neg == (s@[0] == '-'),
            body == (if s@[0] == '+' || neg {
                s@.drop_first()
            } else {
                s@
            }),
            forall|j: int| 0 <= j < i - start ==> is_digit(#[trigger] body[j], radix as nat),
            neg ==> acc as int == -(digits_value(body.take(i - start), radix as nat) as int),
            !neg ==> acc as int == digits_value(body.take(i - start), radix as nat) as int,
        decreases n - i,
    {
        let ghost k = (i - start) as int;
        assert(body[k] == s@[i as int]);
        match digit_of(s[i], radix) {
            None => {
                proof {
                    lemma_digit_prefix_len(body, k, radix as nat);
                }
                return Err(IntErrorKind::InvalidDigit);
            },
            Some(d) => {
                proof {
                    lemma_take_push(body, k);
                    lemma_digits_value_push(body.take(k), body[k], radix as nat);
                }
                let step = acc.checked_mul(r);
                let next = match step {
                    None => None,
                    Some(m) => if neg {
                        m.checked_sub(d as i64)
                    } else {
                        m.checked_add(d as i64)
                    },
                };
                match next {
                    None => {
                        proof {
                            let p = digit_prefix_len(body, radix as nat) as int;
                            lemma_digit_prefix_at_least(body, k + 1, radix as nat);
                            lemma_digits_value_monotone(body, k + 1, p, radix as nat);
                            let a = digits_value(body.take(k), radix as nat) as int;
                            assert(a * radix >= 0) by (nonlinear_arith)
                                requires
                                    a >= 0,
                                    radix >= 2,
                            ;
                            if neg {
                                assert((-a) * radix == -(a * radix)) by (nonlinear_arith);
                            }
                        }
                        if neg {
                            return Err(IntErrorKind::NegOverflow);
                        } else {
                            return Err(IntErrorKind::PosOverflow);
                        }
                    },
                    Some(v) => {
                        proof {
                            let a = digits_value(body.take(k), radix as nat) as int;
                            if neg {
                                assert((-a) * radix == -(a * radix)) by (nonlinear_arith);
                            }
                        }
                        acc = v;
                    },
                }
            },
        }
        i = i + 1;
    }
    proof {
        lemma_digit_prefix_len(body, body.len() as int, radix as nat);
        assert(body.take(body.len() as int) =~= body);
    }
    Ok(acc)
}


/// Parses an unsigned integer bounded by `max` the way `from_str_radix` of
/// an unsigned type does (`u8`, `u64`, `usize`, ...).
pub fn parse_unsigned(s: &Vec<char>, radix: u32, max: u64) -> (res: Result<u64, IntErrorKind>)
    requires
        valid_radix(radix as nat),
    ensures
        match res {
            Ok(v) => parse_int(s@, radix as nat, 0, max as int, false) == Ok::<int, IntErrorKind>(
                v as int,
            ),
            Err(e) => parse_int(s@, radix as nat, 0, max as int, false) == Err::<int, IntErrorKind>(
                e,
            ),
        },
{
    let n = s.len();
    if n == 0 {
        return Err(IntErrorKind::Empty);
    }
    let start: usize = if s[0] == '+' {
        1
    } else {
        0
    };
    let ghost body = if s@[0] == '+' {
        s@.drop_first()
    } else {
        s@
    };
    if start == n {
        return Err(IntErrorKind::InvalidDigit);
    }
    let r = radix as u64;
    let mut acc: u64 = 0;
    let mut i: usize = start;
    while i < n
        invariant
            start <= i <= n,
            n == s@.len(),
            start < n,
            r == radix as u64,
            valid_radix(radix as nat),
            body =~= s@.subrange(start as int, n as int),
            body == (if s@[0] == '+' {
                s@.drop_first()
            } else {
                s@
            }),
            forall|j: int| 0 <= j < i - start ==> is_digit(#[trigger] body[j], radix as nat),
            acc as int == digits_value(body.take(i - start), radix as nat) as int,
            acc <= max,
        decreases n - i,
    {
        let ghost k = (i - start) as int;
        assert(body[k] == s@[i as int]);
        match digit_of(s[i], radix) {
            None => {
                proof {
                    lemma_digit_prefix_len(body, k, radix as nat);
                }
                return Err(IntErrorKind::InvalidDigit);
            },
            Some(d) => {
                proof {
                    lemma_take_push(body, k);
                    lemma_digits_value_push(body.take(k), body[k], radix as nat);
                }
                let next = match acc.checked_mul(r) {
                    None => None,
                    Some(m) => m.checked_add(d as u64),
                };
                let over = match next {
                    None => true,
                    Some(v) => v > max,
                };
                if over {
                    proof {
                        let p = digit_prefix_len(body, radix as nat) as int;
                        lemma_digit_prefix_at_least(body, k + 1, radix as nat);
                        lemma_digits_value_monotone(body, k + 1, p, radix as nat);
                    }
                    return Err(IntErrorKind::PosOverflow);
                }
                acc = next.unwrap();
            },
        }
        i = i + 1;
    }
    proof {
        lemma_digit_prefix_len(body, body.len() as int, radix as nat);
        assert(body.take(body.len() as int) =~= body);
    }
    Ok(acc)
}

/// The character of a digit value (`0-9`, then lowercase `a-z`).
pub fn digit_to_char(d: u32) -> (c: char)
    requires
        d < 36,
    ensures
        c == digit_char(d as nat),
{
    if d < 10 {
        ((48 + d) as u8) as char
    } else {
        ((97 + d - 10) as u8) as char
    }
}

proof fn lemma_radix_digits_step(v: nat, radix: nat)
    requires
        radix >= 2,
        v >= radix,
    ensures
        radix_digits(v, radix) == radix_digits(v / radix, radix).push(digit_char(v % radix)),
{
}

/// The digits of `v` in `radix`, most significant first (what `{:b}`, `{:o}`,
/// `{}` and `{:x}` print for an unsigned value).
pub fn format_u64_radix(v: u64, radix: u32) -> (res: Vec<char>)
    requires
        valid_radix(radix as nat),
    ensures
        res@ == radix_digits(v as nat, radix as nat),
{
    let r = radix as u64;
    let mut q: u64 = v;
    let mut out: Vec<char> = Vec::new();
    while q >= r
        invariant
            r == radix as u64,
            valid_radix(radix as nat),
            radix_digits(v as nat, radix as nat) == radix_digits(q as nat, radix as nat) + out@,
        decreases q,
    {
        let d = (q % r) as u32;
        let c = digit_to_char(d);
        proof {
            lemma_radix_digits_step(q as nat, radix as nat);
            let a = radix_digits((q / r) as nat, radix as nat);
            assert(a.push(c) + out@ =~= a + seq![c].add(out@));
            assert(q % r < 36) by (nonlinear_arith)
                requires
                    r <= 36,
                    r >= 2,
            ;
        }
        let ghost prev = out@;
        out.insert(0, c);
        assert(out@ =~= seq![c].add(prev));
        q = q / r;
    }
    let c = digit_to_char(q as u32);
    out.insert(0, c);
    proof {
        assert(radix_digits(q as nat, radix as nat) =~= seq![c]);
    }
    out
}

/// What `{:b}` (radix 2), `{:o}` (8), `{}` (10) or `{:x}` (16) print for an `i64`.
pub fn format_i64_radix(n: i64, radix: u32) -> (res: Vec<char>)
    requires
        valid_radix(radix as nat),
    ensures
        res@ == i64_radix_text(n as int, radix as nat),
{
    if n >= 0 {
        format_u64_radix(n as u64, radix)
    } else if radix == 10 {
        let mag: u64 = (-(n + 1)) as u64 + 1;
        let digits = format_u64_radix(mag, radix);
        let mut out: Vec<char> = Vec::new();
        out.push('-');
        let mut i: usize = 0;
        while i < digits.len()
            invariant
                0 <= i <= digits@.len(),
                out@ =~= seq!['-'] + digits@.take(i as int),
            decreases digits@.len() - i,
        {
            out.push(digits[i]);
            i = i + 1;
        }
        assert(digits@.take(digits@.len() as int) =~= digits@);
        out
    } else {
        let twos: u64 = u64::MAX - ((-(n + 1)) as u64);
        format_u64_radix(twos, radix)
    }
}

/// The decimal form of an `i64` (what `to_string` gives).
pub fn format_i64(n: i64) -> (res: Vec<char>)
    ensures
        res@ == decimal(n as int),
{
    format_i64_radix(n, 10)
}

proof fn lemma_digit_char_value(d: nat, radix: nat)
    requires
        d < radix <= 36,
    ensures
        digit_value(digit_char(d), radix) == Some(d),
        digit_char(d) != '+',
        digit_char(d) != '-',
{
}

/// Every character of `radix_digits(v)` is a digit and together they spell `v`.
pub proof fn lemma_radix_digits_value(v: nat, radix: nat)
    requires
        valid_radix(radix),
    ensures
        radix_digits(v, radix).len() >= 1,
        forall|j: int|
            0 <= j < radix_digits(v, radix).len() ==> is_digit(
                #[trigger] radix_digits(v, radix)[j],
                radix,
            ),
        radix_digits(v, radix)[0] != '+',
        radix_digits(v, radix)[0] != '-',
        digits_value(radix_digits(v, radix), radix) == v,
    decreases v,
{
    if v < radix {
        lemma_digit_char_value(v, radix);
        lemma_digits_value_push(Seq::<char>::empty(), digit_char(v), radix);
        assert(seq![digit_char(v)] =~= Seq::<char>::empty().push(digit_char(v)));
        assert(digits_value(Seq::<char>::empty(), radix) == 0);
        assert(radix_digits(v, radix) == seq![digit_char(v)]);
        assert(digit_value(digit_char(v), radix) == Some(v));
        assert(digits_value(Seq::<char>::empty().push(digit_char(v)), radix) == 0 * radix + v);
        assert(0 * radix == 0);
        assert(digits_value(radix_digits(v, radix), radix) == v);
    } else {
        assert(v / radix < v) by (nonlinear_arith)
            requires
                radix >= 2,
                v >= radix,
        ;
        lemma_radix_digits_value(v / radix, radix);
        let a = radix_digits(v / radix, radix);
        assert(v % radix < radix) by (nonlinear_arith)
            requires
                radix >= 2,
        ;
        lemma_digit_char_value(v % radix, radix);
        lemma_digits_value_push(a, digit_char(v % radix), radix);
        assert((v / radix) * radix + v % radix == v) by (nonlinear_arith)
            requires
                radix >= 2,
        ;
        assert(radix_digits(v, radix) == a.push(digit_char(v % radix)));
        assert(digits_value(radix_digits(v, radix), radix) == v);
        assert forall|j: int|
            0 <= j < radix_digits(v, radix).len() implies is_digit(
            #[trigger] radix_digits(v, radix)[j],
            radix,
        ) by {
            if j < a.len() {
                assert(radix_digits(v, radix)[j] == a[j]);
            }
        }
    }
}

/// Parsing what an `i64` prints in a radix gives the number back: always in
/// decimal, and for non-negative numbers in every radix.
pub proof fn lemma_i64_text_parses_back(n: i64, radix: nat)
    requires
        valid_radix(radix),
        radix == 10 || n >= 0,
    ensures
        parse_int(i64_radix_text(n as int, radix), radix, i64::MIN as int, i64::MAX as int, true)
            == Ok::<int, IntErrorKind>(n as int),
{
    let mag: nat = if n < 0 {
        (-n) as nat
    } else {
        n as nat
    };
    let d = radix_digits(mag, radix);
    lemma_radix_digits_value(mag, radix);
    lemma_digit_prefix_len(d, d.len() as int, radix);
    assert(d.take(d.len() as int) =~= d);
    let t = i64_radix_text(n as int, radix);
    if n < 0 {
        assert(t == seq!['-'] + d);
        assert(t.drop_first() =~= d);
    } else {
        assert(t == d);
    }
}
/// The digits of any value in range read back as that value, whatever the
/// bounds and sign rule of the integer type.
pub proof fn lemma_digits_parse_back(v: nat, radix: nat, min: int, max: int, signed: bool)
    requires
        valid_radix(radix),
        min <= v <= max,
    ensures
        parse_int(radix_digits(v, radix), radix, min, max, signed) == Ok::<int, IntErrorKind>(
            v as int,
        ),
{
    let d = radix_digits(v, radix);
    lemma_radix_digits_value(v, radix);
    lemma_digit_prefix_len(d, d.len() as int, radix);
    assert(d.take(d.len() as int) =~= d);
    assert(digit_value(d[0], radix) is Some);
}

/// `k` zero digits.
pub open spec fn zeros(k: nat) -> Seq<char> {
    Seq::new(k, |i: int| '0')
}

/// Zeros in front of a digit string do not change its value.
pub proof fn lemma_leading_zeros_value(k: nat, d: Seq<char>, radix: nat)
    requires
        valid_radix(radix),
    ensures
        digits_value(zeros(k) + d, radix) == digits_value(d, radix),
    decreases d.len() + k,
{
    let z = zeros(k);
    if d.len() == 0 {
        assert(z + d =~= z);
        if k > 0 {
            let z1 = zeros((k - 1) as nat);
            assert(z.drop_last() =~= z1);
            assert(z1 + d =~= z1);
            lemma_leading_zeros_value((k - 1) as nat, d, radix);
            assert(digit_value('0', radix) == Some(0nat));
            assert(z.last() == '0');
            assert(digits_value(z1, radix) == 0);
            assert(digits_value(z, radix) == digits_value(z1, radix) * radix + 0);
        }
    } else {
        assert((z + d).drop_last() =~= z + d.drop_last());
        assert((z + d).last() == d.last());
        lemma_leading_zeros_value(k, d.drop_last(), radix);
    }
}

} // verus!
