//! The text case tool of the desktop application: the input in eight cases,
//! each under its name.

use crate::cmd::text_case::{
    kebab_case, kebab_of, lower_camel_case, lower_camel_of, shouty_kebab_case, shouty_kebab_of,
    shouty_snake_case, shouty_snake_of, snake_case, snake_of, space_words, spaced_words, train_case,
    train_of, upper_camel_case, upper_camel_of,
};
use crate::locale::L10n;
use crate::text::{trim, trimmed};
use vstd::prelude::*;

verus! {

/// One case of the input, under its name.
pub struct CaseResult {
    pub label: &'static str,
    pub value: String,
}

/// The names of the eight cases, in the order shown.
pub open spec fn case_labels(l10n: L10n) -> Seq<&'static str> {
    seq![
        l10n.text_case_camel,
        l10n.text_case_pascal,
        l10n.text_case_snake,
        l10n.text_case_shouty_snake,
        l10n.text_case_kebab,
        l10n.text_case_shouty_kebab,
        l10n.text_case_train,
        l10n.text_case_title_case,
    ]
}

/// The eight cases of `t`, in the order shown; the title case is the upper
/// camel case with a space before every capital but the first.
pub open spec fn case_values(t: Seq<char>) -> Seq<Seq<char>> {
    seq![
        lower_camel_case(t),
        upper_camel_case(t),
        snake_case(t),
        shouty_snake_case(t),
        kebab_case(t),
        shouty_kebab_case(t),
        train_case(t),
        spaced_words(upper_camel_case(t)),
    ]
}

/// Whether the results hold the eight names, in order, with the values.
pub open spec fn results_are(results: Seq<CaseResult>, l10n: L10n, values: Seq<Seq<char>>) -> bool {
    &&& results.len() == 8
    &&& forall|i: int|
        0 <= i < 8 ==> (#[trigger] results[i]).label == case_labels(l10n)[i] && results[i].value@
            == values[i]
}

/// Eight empty values.
pub open spec fn blank_values() -> Seq<Seq<char>> {
    Seq::new(8, |i: int| Seq::<char>::empty())
}

fn entry(label: &'static str, value: String) -> (res: CaseResult)
    ensures
        res.label == label,
        res.value == value,
{
    CaseResult { label, value }
}

/// The state of the text case tool.
pub struct TextCasePanel {
    pub results: Vec<CaseResult>,
}

impl TextCasePanel {
    /// The tool at start: the eight names with empty values.
    pub fn new(l10n: &'static L10n) -> (res: Self)
        ensures
            results_are(res.results@, *l10n, blank_values()),
    {
        let mut results: Vec<CaseResult> = Vec::new();
        results.push(entry(l10n.text_case_camel, String::new()));
        results.push(entry(l10n.text_case_pascal, String::new()));
        results.push(entry(l10n.text_case_snake, String::new()));
        results.push(entry(l10n.text_case_shouty_snake, String::new()));
        results.push(entry(l10n.text_case_kebab, String::new()));
        results.push(entry(l10n.text_case_shouty_kebab, String::new()));
        results.push(entry(l10n.text_case_train, String::new()));
        results.push(entry(l10n.text_case_title_case, String::new()));
        assert(results_are(results@, *l10n, blank_values()));
        TextCasePanel { results }
    }

    /// Converts the input without its surrounding white space; a blank input
    /// changes nothing.
    pub fn convert_case(&mut self, l10n: &'static L10n, input: &str)
        ensures
            trim(input@).len() == 0 ==> *final(self) == *old(self),
            trim(input@).len() > 0 ==> results_are(
                final(self).results@,
                *l10n,
                case_values(trim(input@)),
            ),
    {
        let t = trimmed(input);
        if t.as_str().is_empty() {
            return;
        }
        let s = t.as_str();
        let pascal = upper_camel_of(s);
        let mut results: Vec<CaseResult> = Vec::new();
        results.push(entry(l10n.text_case_camel, lower_camel_of(s)));
        results.push(entry(l10n.text_case_pascal, upper_camel_of(s)));
        results.push(entry(l10n.text_case_snake, snake_of(s)));
        results.push(entry(l10n.text_case_shouty_snake, shouty_snake_of(s)));
        results.push(entry(l10n.text_case_kebab, kebab_of(s)));
        results.push(entry(l10n.text_case_shouty_kebab, shouty_kebab_of(s)));
        results.push(entry(l10n.text_case_train, train_of(s)));
        results.push(entry(l10n.text_case_title_case, space_words(pascal.as_str())));
        assert(results_are(results@, *l10n, case_values(t@)));
        self.results = results;
    }

    /// Empties every value; the names stay.
    pub fn clear(&mut self)
        ensures
            final(self).results@.len() == old(self).results@.len(),
            forall|i: int|
                0 <= i < final(self).results@.len() ==> (#[trigger] final(self).results@[i]).label
                    == old(self).results@[i].label && final(self).results@[i].value@.len() == 0,
    {
        let n = self.results.len();
        let ghost before = self.results@;
        let mut fresh: Vec<CaseResult> = Vec::new();
        let mut i: usize = 0;
        while i < n
            invariant
                0 <= i <= n,
                n == before.len(),
                self.results@ == before,
                fresh@.len() == i,
                forall|j: int|
                    0 <= j < i ==> (#[trigger] fresh@[j]).label == before[j].label
                        && fresh@[j].value@.len() == 0,
            decreases n - i,
        {
            let label = self.results[i].label;
            fresh.push(entry(label, String::new()));
            i = i + 1;
        }
        self.results = fresh;
    }
}

} // verus!
