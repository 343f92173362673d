//! The digest tool of the desktop application: the digests of the input by
//! the algorithms chosen, in the order of the list.

use crate::cmd::hash::{all_algorithms, compute, digest, Algorithm};
use crate::hexfmt::hex_text;
use crate::locale::L10n;
use crate::text::owned;
use vstd::prelude::*;
use vstd::utf8::encode_utf8;

verus! {

/// The position of an algorithm in the list.
pub open spec fn algorithm_index(a: Algorithm) -> int {
    match a {
        Algorithm::Md5 => 0,
        Algorithm::Sha1 => 1,
        Algorithm::Sha256 => 2,
        Algorithm::Sha512 => 3,
        Algorithm::Sha3_256 => 4,
        Algorithm::Sha3_512 => 5,
        Algorithm::Blake3 => 6,
    }
}

fn index_of(a: Algorithm) -> (res: usize)
    ensures
        res == algorithm_index(a),
        all_algorithms()[res as int] == a,
{
    match a {
        Algorithm::Md5 => 0,
        Algorithm::Sha1 => 1,
        Algorithm::Sha256 => 2,
        Algorithm::Sha512 => 3,
        Algorithm::Sha3_256 => 4,
        Algorithm::Sha3_512 => 5,
        Algorithm::Blake3 => 6,
    }
}

/// The name of an algorithm in the given texts.
pub open spec fn hash_label(a: Algorithm, l10n: L10n) -> &'static str {
    match a {
        Algorithm::Md5 => l10n.hash_md5,
        Algorithm::Sha1 => l10n.hash_sha1,
        Algorithm::Sha256 => l10n.hash_sha256,
        Algorithm::Sha512 => l10n.hash_sha512,
        Algorithm::Sha3_256 => l10n.hash_sha3_256,
        Algorithm::Sha3_512 => l10n.hash_sha3_512,
        Algorithm::Blake3 => l10n.hash_blake3,
    }
}

/// The name of an algorithm in the given texts.
pub fn locale_key<'a>(a: Algorithm, l10n: &'a L10n) -> (res: &'a str)
    ensures
        res == hash_label(a, *l10n),
{
    match a {
        Algorithm::Md5 => l10n.hash_md5,
        Algorithm::Sha1 => l10n.hash_sha1,
        Algorithm::Sha256 => l10n.hash_sha256,
        Algorithm::Sha512 => l10n.hash_sha512,
        Algorithm::Sha3_256 => l10n.hash_sha3_256,
        Algorithm::Sha3_512 => l10n.hash_sha3_512,
        Algorithm::Blake3 => l10n.hash_blake3,
    }
}

/// The algorithms among the first `k` of the list whose flag is set, in
/// the order of the list.
pub open spec fn chosen(flags: Seq<bool>, k: int) -> Seq<Algorithm>
    decreases k,
{
    if k <= 0 {
        Seq::empty()
    } else if flags[k - 1] {
        chosen(flags, k - 1).push(all_algorithms()[k - 1])
    } else {
        chosen(flags, k - 1)
    }
}

/// Whether `results` holds, in order, each chosen algorithm with the
/// lowercase hexadecimal digest of `data`.
pub open spec fn results_ok(results: Seq<(Algorithm, String)>, algos: Seq<Algorithm>, data: Seq<u8>) -> bool {
    &&& results.len() == algos.len()
    &&& forall|i: int|
        0 <= i < results.len() ==> (#[trigger] results[i]).0 == algos[i] && results[i].1@ == hex_text(
            digest(algos[i], data),
            true,
        )
}

/// The state of the digest tool.
pub struct HashPanel {
    /// For each algorithm of the list, whether it is chosen.
    pub selected: Vec<bool>,
    /// The text last hashed.
    pub input_text: String,
    /// The digests of that text, by the chosen algorithms in list order.
    pub results: Vec<(Algorithm, String)>,
    /// Whether anything was hashed since the last clearing.
    pub has_computed: bool,
}

impl HashPanel {
    /// One flag per algorithm.
    pub open spec fn wf(&self) -> bool {
        self.selected@.len() == 7
    }

    /// The tool at start: every algorithm chosen, nothing hashed.
    pub fn new() -> (res: Self)
        ensures
            res.wf(),
            forall|i: int| 0 <= i < 7 ==> res.selected@[i],
            res.input_text@.len() == 0,
            res.results@.len() == 0,
            !res.has_computed,
    {
        HashPanel {
            selected: vec![true, true, true, true, true, true, true],
            input_text: String::new(),
            results: Vec::new(),
            has_computed: false,
        }
    }

    /// Chooses an algorithm that was not chosen, or drops one that was.
    pub fn toggle_algorithm(&mut self, algo: Algorithm)
        requires
            old(self).wf(),
        ensures
            final(self).wf(),
            final(self).selected@ == old(self).selected@.update(
                algorithm_index(algo),
                !old(self).selected@[algorithm_index(algo)],
            ),
            final(self).input_text == old(self).input_text,
            final(self).results == old(self).results,
            final(self).has_computed == old(self).has_computed,
    {
        let i = index_of(algo);
        let flag = self.selected[i];
        self.selected.set(i, !flag);
    }

    /// Hashes the input with every chosen algorithm; an empty input changes
    /// nothing.
    pub fn compute_hash(&mut self, input: &str)
        requires
            old(self).wf(),
        ensures
            final(self).wf(),
            input@.len() == 0 ==> *final(self) == *old(self),
            input@.len() > 0 ==> {
                &&& final(self).selected == old(self).selected
                &&& final(self).input_text@ == input@
                &&& results_ok(final(self).results@, chosen(old(self).selected@, 7), encode_utf8(input@))
                &&& final(self).has_computed
            },
    {
        if input.is_empty() {
            return;
        }
        let all = Algorithm::all();
        let mut results: Vec<(Algorithm, String)> = Vec::new();
        let mut k: usize = 0;
        while k < 7
            invariant
                0 <= k <= 7,
                self.selected@.len() == 7,
                all@ == all_algorithms(),
                results_ok(results@, chosen(self.selected@, k as int), encode_utf8(input@)),
            decreases 7 - k,
        {
            if self.selected[k] {
                let algo = all[k];
                results.push((algo, compute(algo, input)));
            }
            k = k + 1;
        }
        self.input_text = owned(input);
        self.results = results;
        self.has_computed = true;
    }

    /// Forgets the text and its digests; the choice stays.
    pub fn clear(&mut self)
        requires
            old(self).wf(),
        ensures
            final(self).wf(),
            final(self).selected == old(self).selected,
            final(self).input_text@.len() == 0,
            final(self).results@.len() == 0,
            !final(self).has_computed,
    {
        self.input_text = String::new();
        self.results = Vec::new();
        self.has_computed = false;
    }
}

/// Choosing an algorithm twice leaves the choice as it was.
pub proof fn lemma_toggle_twice(selected: Seq<bool>, algo: Algorithm)
    requires
        selected.len() == 7,
    ensures
        ({
            let i = algorithm_index(algo);
            let once = selected.update(i, !selected[i]);
            once.update(i, !once[i]) == selected
        }),
{
    let i = algorithm_index(algo);
    let once = selected.update(i, !selected[i]);
    assert(once.update(i, !once[i]) =~= selected);
}

} // verus!
