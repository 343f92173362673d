//! Case conversions of a text: camel, snake, kebab, train and title case.

use crate::pretty::{Report, ReportLine};
use crate::text::{chars_of, string_from_chars};
use heck::{
    ToKebabCase, ToLowerCamelCase, ToShoutyKebabCase, ToShoutySnakeCase, ToSnakeCase, ToTitleCase,
    ToTrainCase, ToUpperCamelCase,
};
use vstd::prelude::*;

verus! {

/// `heck`'s lower camel case of a text (`lowerCamelCase`).
pub uninterp spec fn lower_camel_case(text: Seq<char>) -> Seq<char>;

/// `heck`'s upper camel case of a text (`UpperCamelCase`, also called Pascal case).
pub uninterp spec fn upper_camel_case(text: Seq<char>) -> Seq<char>;

/// `heck`'s snake case of a text (`snake_case`).
pub uninterp spec fn snake_case(text: Seq<char>) -> Seq<char>;

/// `heck`'s shouty snake case of a text (`SHOUTY_SNAKE_CASE`).
pub uninterp spec fn shouty_snake_case(text: Seq<char>) -> Seq<char>;

/// `heck`'s kebab case of a text (`kebab-case`).
pub uninterp spec fn kebab_case(text: Seq<char>) -> Seq<char>;

/// `heck`'s shouty kebab case of a text (`SHOUTY-KEBAB-CASE`).
pub uninterp spec fn shouty_kebab_case(text: Seq<char>) -> Seq<char>;

/// `heck`'s train case of a text (`Train-Case`).
pub uninterp spec fn train_case(text: Seq<char>) -> Seq<char>;

/// `heck`'s title case of a text (`Title Case`).
pub uninterp spec fn title_case(text: Seq<char>) -> Seq<char>;

/// `ToLowerCamelCase::to_lower_camel_case` of `heck`. Claimed: the result is
/// `lower_camel_case` of the text.
#[verifier::external_body]
pub(crate) fn lower_camel_of(text: &str) -> (res: String)
    ensures
        res@ == lower_camel_case(text@),
{
    text.to_lower_camel_case()
}

/// `ToUpperCamelCase::to_upper_camel_case` of `heck` (which its
/// `to_pascal_case` calls). Claimed: the result is `upper_camel_case` of the text.
#[verifier::external_body]
pub(crate) fn upper_camel_of(text: &str) -> (res: String)
    ensures
        res@ == upper_camel_case(text@),
{
    text.to_upper_camel_case()
}

/// `ToSnakeCase::to_snake_case` of `heck`. Claimed: the result is
/// `snake_case` of the text.
#[verifier::external_body]
pub(crate) fn snake_of(text: &str) -> (res: String)
    ensures
        res@ == snake_case(text@),
{
    text.to_snake_case()
}

/// `ToShoutySnakeCase::to_shouty_snake_case` of `heck`. Claimed: the result
/// is `shouty_snake_case` of the text.
#[verifier::external_body]
pub(crate) fn shouty_snake_of(text: &str) -> (res: String)
    ensures
        res@ == shouty_snake_case(text@),
{
    text.to_shouty_snake_case()
}

/// `ToKebabCase::to_kebab_case` of `heck`. Claimed: the result is
/// `kebab_case` of the text.
#[verifier::external_body]
pub(crate) fn kebab_of(text: &str) -> (res: String)
    ensures
        res@ == kebab_case(text@),
{
    text.to_kebab_case()
}

/// `ToShoutyKebabCase::to_shouty_kebab_case` of `heck`. Claimed: the result
/// is `shouty_kebab_case` of the text.
#[verifier::external_body]
pub(crate) fn shouty_kebab_of(text: &str) -> (res: String)
    ensures
        res@ == shouty_kebab_case(text@),
{
    text.to_shouty_kebab_case()
}

/// `ToTrainCase::to_train_case` of `heck`. Claimed: the result is
/// `train_case` of the text.
#[verifier::external_body]
pub(crate) fn train_of(text: &str) -> (res: String)
    ensures
        res@ == train_case(text@),
{
    text.to_train_case()
}

/// `ToTitleCase::to_title_case` of `heck`. Claimed: the result is
/// `title_case` of the text.
#[verifier::external_body]
fn title_of(text: &str) -> (res: String)
    ensures
        res@ == title_case(text@),
{
    text.to_title_case()
}

/// The conversions, in the order in which they are shown.
#[derive(Clone, Copy, Debug, PartialEq, Eq, Structural)]
pub enum Case {
    LowerCamel,
    UpperCamel,
    Snake,
    ShoutySnake,
    Kebab,
    ShoutyKebab,
    Train,
    Title,
}

/// Every conversion, in the order in which they are shown.
pub open spec fn all_cases() -> Seq<Case> {
    seq![
        Case::LowerCamel,
        Case::UpperCamel,
        Case::Snake,
        Case::ShoutySnake,
        Case::Kebab,
        Case::ShoutyKebab,
        Case::Train,
        Case::Title,
    ]
}

/// The name of a conversion, written in that case.
pub open spec fn case_label(case: Case) -> Seq<char> {
    match case {
        Case::LowerCamel => "lowerCamelCase"@,
        Case::UpperCamel => "UpperCamelCase"@,
        Case::Snake => "snake_case"@,
        Case::ShoutySnake => "SHOUTY_SNAKE_CASE"@,
        Case::Kebab => "kebab-case"@,
        Case::ShoutyKebab => "SHOUTY-KEBAB-CASE"@,
        Case::Train => "Train-Case"@,
        Case::Title => "Title Case"@,
    }
}

/// The text converted to a case.
pub open spec fn converted(case: Case, text: Seq<char>) -> Seq<char> {
    match case {
        Case::LowerCamel => lower_camel_case(text),
        Case::UpperCamel => upper_camel_case(text),
        Case::Snake => snake_case(text),
        Case::ShoutySnake => shouty_snake_case(text),
        Case::Kebab => kebab_case(text),
        Case::ShoutyKebab => shouty_kebab_case(text),
        Case::Train => train_case(text),
        Case::Title => title_case(text),
    }
}

impl Case {
    /// Every conversion, in the order in which they are shown.
    pub fn all() -> (res: Vec<Case>)
        ensures
            res@ == all_cases(),
    {
        vec![
            Case::LowerCamel,
            Case::UpperCamel,
            Case::Snake,
            Case::ShoutySnake,
            Case::Kebab,
            Case::ShoutyKebab,
            Case::Train,
            Case::Title,
        ]
    }

    /// The name of the conversion.
    pub fn label(&self) -> (res: String)
        ensures
            res@ == case_label(*self),
    {
        let s = match self {
            Case::LowerCamel => "lowerCamelCase",
            Case::UpperCamel => "UpperCamelCase",
            Case::Snake => "snake_case",
            Case::ShoutySnake => "SHOUTY_SNAKE_CASE",
            Case::Kebab => "kebab-case",
            Case::ShoutyKebab => "SHOUTY-KEBAB-CASE",
            Case::Train => "Train-Case",
            Case::Title => "Title Case",
        };
        string_from_chars(&chars_of(s))
    }
}

/// Converts the text to a case.
pub fn convert(case: Case, text: &str) -> (res: String)
    ensures
        res@ == converted(case, text@),
{
    match case {
        Case::LowerCamel => lower_camel_of(text),
        Case::UpperCamel => upper_camel_of(text),
        Case::Snake => snake_of(text),
        Case::ShoutySnake => shouty_snake_of(text),
        Case::Kebab => kebab_of(text),
        Case::ShoutyKebab => shouty_kebab_of(text),
        Case::Train => train_of(text),
        Case::Title => title_of(text),
    }
}

/// The argument of the text case command: the text to convert.
pub struct Args {
    pub text: String,
}

/// Width to which the names of the conversions are padded.
pub const MAX_LEN: usize = 20;

/// Whether a report line shows the conversion of `text` to `case`.
pub open spec fn case_line_ok(line: ReportLine, case: Case, text: Seq<char>) -> bool {
    match line {
        ReportLine::Pair { key, value, width } => key@ == case_label(case) && value@ == converted(
            case,
            text,
        ) && width == MAX_LEN,
        ReportLine::Text(_) => false,
    }
}

/// The text case report: every conversion of the text, in order, under the
/// header `Text Case`. An empty text prints nothing.
pub fn run(args: Args) -> (res: Option<Report>)
    ensures
        args.text@.len() == 0 <==> res is None,
        res matches Some(report) ==> {
            &&& report.header@ == "Text Case"@
            &&& report.lines@.len() == 8
            &&& forall|i: int|
                0 <= i < 8 ==> case_line_ok(#[trigger] report.lines@[i], all_cases()[i], args.text@)
        },
{
    let text = args.text;
    if text.as_str().is_empty() {
        return None;
    }
    let cases = Case::all();
    let mut lines: Vec<ReportLine> = Vec::new();
    let mut k: usize = 0;
    while k < 8
        invariant
            0 <= k <= 8,
            cases@ == all_cases(),
            lines@.len() == k,
            forall|i: int|
                0 <= i < k ==> case_line_ok(#[trigger] lines@[i], all_cases()[i], text@),
        decreases 8 - k,
    {
        let case = cases[k];
        lines.push(
            ReportLine::Pair {
                key: case.label(),
                value: convert(case, text.as_str()),
                width: MAX_LEN,
            },
        );
        k = k + 1;
    }
    Some(Report { header: string_from_chars(&chars_of("Text Case")), lines })
}

/// Whether `c` is an uppercase letter (the Unicode property `Uppercase`).
pub uninterp spec fn uppercase_char(c: char) -> bool;

/// `char::is_uppercase` of std. Claimed: the result is `uppercase_char`, and
/// an ASCII character is uppercase exactly when it lies in `A..=Z`, as the
/// documentation of `char` says.
#[verifier::external_body]
fn is_uppercase(c: char) -> (res: bool)
    ensures
        res == uppercase_char(c),
        (c as u32) < 128 ==> (res <==> 'A' <= c <= 'Z'),
{
    c.is_uppercase()
}

/// `s` with a space put before every uppercase character but the first:
/// `UpperCamelCase` becomes `Upper Camel Case`.
pub open spec fn spaced_words(s: Seq<char>) -> Seq<char>
    decreases s.len(),
{
    if s.len() == 0 {
        s
    } else if s.len() > 1 && uppercase_char(s.last()) {
        spaced_words(s.drop_last()) + seq![' ', s.last()]
    } else {
        spaced_words(s.drop_last()).push(s.last())
    }
}

/// The number of uppercase characters among `s[1..=i]`.
pub open spec fn capitals_after_first(s: Seq<char>, i: int) -> int
    decreases i,
{
    if i <= 0 {
        0
    } else {
        capitals_after_first(s, i - 1) + if uppercase_char(s[i]) {
            1int
        } else {
            0int
        }
    }
}

proof fn lemma_capitals_prefix(s: Seq<char>, t: Seq<char>, i: int)
    requires
        i < s.len(),
        i < t.len(),
        forall|k: int| 0 <= k <= i ==> s[k] == t[k],
    ensures
        capitals_after_first(s, i) == capitals_after_first(t, i),
    decreases i,
{
    if i > 0 {
        lemma_capitals_prefix(s, t, i - 1);
    }
}

proof fn lemma_capitals_nonneg(s: Seq<char>, j: int)
    ensures
        0 <= capitals_after_first(s, j),
    decreases j,
{
    if j > 0 {
        lemma_capitals_nonneg(s, j - 1);
    }
}

proof fn lemma_capitals_monotone(s: Seq<char>, i: int, j: int)
    requires
        i <= j,
    ensures
        0 <= capitals_after_first(s, i) <= capitals_after_first(s, j),
    decreases j - i,
{
    lemma_capitals_nonneg(s, i);
    if i < j {
        lemma_capitals_monotone(s, i, j - 1);
    }
}

/// The title puts each character of `s` in order, with a space immediately
/// before each uppercase character but the first and nowhere else: the
/// character `s[i]` lands at `i` plus the number of capitals in `s[1..=i]`,
/// so removing those spaces gives `s` back.
pub proof fn lemma_spaced_words_layout(s: Seq<char>)
    ensures
        spaced_words(s).len() == s.len() + capitals_after_first(s, s.len() - 1),
        forall|i: int|
            0 <= i < s.len() ==> spaced_words(s)[i + capitals_after_first(s, i)] == #[trigger] s[i],
        forall|i: int|
            0 < i < s.len() && uppercase_char(#[trigger] s[i]) ==> spaced_words(s)[i
                + capitals_after_first(s, i) - 1] == ' ',
    decreases s.len(),
{
    if s.len() > 0 {
        let p = s.drop_last();
        let n = s.len() - 1;
        lemma_spaced_words_layout(p);
        let tp = spaced_words(p);
        let t = spaced_words(s);
        assert forall|k: int| 0 <= k <= n - 1 implies s[k] == p[k] by {}
        if n >= 1 {
            lemma_capitals_prefix(s, p, n - 1);
        }
        lemma_capitals_monotone(s, 0, n);
        assert forall|i: int| 0 <= i < n implies capitals_after_first(s, i)
            == capitals_after_first(p, i) && i + capitals_after_first(s, i) < tp.len() by {
            lemma_capitals_prefix(s, p, i);
            lemma_capitals_monotone(p, i, n - 1);
        }
        if n > 0 && uppercase_char(s.last()) {
            assert(t == tp + seq![' ', s.last()]);
        } else {
            assert(t == tp.push(s.last()));
        }
        assert forall|i: int| 0 <= i < s.len() implies t[i + capitals_after_first(s, i)]
            == #[trigger] s[i] by {
            if i < n {
                lemma_capitals_prefix(s, p, i);
                lemma_capitals_monotone(p, i, n - 1);
                assert(p[i] == s[i]);
                assert(t[i + capitals_after_first(s, i)] == tp[i + capitals_after_first(p, i)]);
            }
        }
        assert forall|i: int|
            0 < i < s.len() && uppercase_char(#[trigger] s[i]) implies t[i
                + capitals_after_first(s, i) - 1] == ' ' by {
            if i < n {
                lemma_capitals_prefix(s, p, i);
                lemma_capitals_monotone(p, i, n - 1);
                lemma_capitals_monotone(p, 0, i - 1);
                assert(p[i] == s[i]);
                assert(t[i + capitals_after_first(s, i) - 1] == tp[i + capitals_after_first(p, i)
                    - 1]);
            }
        }
    }
}

/// Puts a space before every uppercase character but the first.
pub fn space_words(s: &str) -> (res: String)
    ensures
        res@ == spaced_words(s@),
{
    let chars = chars_of(s);
    let mut out: Vec<char> = Vec::new();
    let mut i: usize = 0;
    while i < chars.len()
        invariant
            0 <= i <= chars@.len(),
            chars@ == s@,
            out@ == spaced_words(chars@.take(i as int)),
        decreases chars@.len() - i,
    {
        let ch = chars[i];
        assert(chars@.take(i + 1).drop_last() =~= chars@.take(i as int));
        if i > 0 && is_uppercase(ch) {
            out.push(' ');
        }
        out.push(ch);
        i = i + 1;
    }
    assert(chars@.take(chars@.len() as int) =~= chars@);
    string_from_chars(&out)
}

/// The title shown by the desktop panel: the upper camel case of the text
/// with a space before every uppercase character but the first.
pub fn spaced_title(text: &str) -> (res: String)
    ensures
        res@ == spaced_words(upper_camel_case(text@)),
{
    let pascal = upper_camel_of(text);
    space_words(pascal.as_str())
}

} // verus!
