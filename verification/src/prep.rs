//! Allophonic preprocessor.
//!
//! A single sweep moves a cursor once over the phoneme sequence and applies
//! two connected-speech rules at each position, first match winning:
//! cross-boundary degemination (a phoneme repeated on both sides of a lone
//! word boundary loses its first copy) and flapping (a /t/ between vowels
//! right before a boundary is heard as /l/, and the boundary goes away).
//! Deleted elements are first marked with [`EnPhoneme::Tombstone`] and then
//! purged, so the output never contains a tombstone.

use vstd::prelude::*;

use crate::arpabet::{EnConsonant, EnPhoneme};

verus! {

/// Whether an element survives the purge step.
pub open spec fn not_tombstone(p: EnPhoneme) -> bool {
    p != EnPhoneme::Tombstone
}

/// Whether an element is a vowel, with whatever accent.
pub open spec fn is_vowel(p: EnPhoneme) -> bool {
    p is Vowel
}

/// Whether the degemination rule fires at cursor position `i`: a lone word
/// boundary with the same phoneme (vowel with accent, or consonant) on both
/// sides.
pub open spec fn degemination_at(s: Seq<EnPhoneme>, i: int) -> bool {
    &&& 0 <= i
    &&& i + 2 < s.len()
    &&& s[i + 1] == EnPhoneme::Space
    &&& s[i] == s[i + 2]
}

/// Whether the flapping rule fires at cursor position `i`: a vowel, a /t/,
/// a word boundary and a vowel in a row.
pub open spec fn flapping_at(s: Seq<EnPhoneme>, i: int) -> bool {
    &&& 0 <= i
    &&& i + 3 < s.len()
    &&& s[i + 2] == EnPhoneme::Space
    &&& is_vowel(s[i])
    &&& s[i + 1] == EnPhoneme::Consonant(EnConsonant::T)
    &&& is_vowel(s[i + 3])
}

/// One cursor position of the sweep: degemination first, flapping second,
/// otherwise no change.
pub open spec fn sweep_step(s: Seq<EnPhoneme>, i: int) -> Seq<EnPhoneme> {
    if degemination_at(s, i) {
        s.update(i, EnPhoneme::Tombstone)
    } else if flapping_at(s, i) {
        s.update(i + 2, EnPhoneme::Tombstone).update(i + 1, EnPhoneme::Consonant(EnConsonant::L))
    } else {
        s
    }
}

/// The rest of the sweep, with the cursor starting at position `i`.
/// Rewrites made at earlier positions are visible to later ones.
pub open spec fn sweep_from(s: Seq<EnPhoneme>, i: int) -> Seq<EnPhoneme>
    decreases s.len() - i,
{
    if i < 0 || i >= s.len() {
        s
    } else {
        sweep_from(sweep_step(s, i), i + 1)
    }
}

/// Removes every tombstone, compacting the sequence.
pub open spec fn purge(s: Seq<EnPhoneme>) -> Seq<EnPhoneme> {
    s.filter(|p: EnPhoneme| not_tombstone(p))
}

/// The whole preprocessor: one sweep from the left end, then a purge.
pub open spec fn preprocess_spec(s: Seq<EnPhoneme>) -> Seq<EnPhoneme> {
    purge(sweep_from(s, 0))
}

/// Whether a sequence is in reduced form: neither rule fires at any cursor
/// position, so a sweep leaves it unchanged.
pub open spec fn is_reduced(s: Seq<EnPhoneme>) -> bool {
    forall|i: int|
        #![trigger degemination_at(s, i)]
        #![trigger flapping_at(s, i)]
        !degemination_at(s, i) && !flapping_at(s, i)
}

/// Whether a sequence contains no tombstone.
pub open spec fn tombstone_free(s: Seq<EnPhoneme>) -> bool {
    forall|j: int| 0 <= j < s.len() ==> not_tombstone(#[trigger] s[j])
}

proof fn lemma_sweep_reduced(s: Seq<EnPhoneme>, i: int)
    requires
        is_reduced(s),
    ensures
        sweep_from(s, i) == s,
    decreases s.len() - i,
{
    if 0 <= i < s.len() {
        assert(sweep_step(s, i) == s);
        lemma_sweep_reduced(s, i + 1);
    }
}

proof fn lemma_purge_id(s: Seq<EnPhoneme>)
    requires
        tombstone_free(s),
    ensures
        purge(s) == s,
    decreases s.len(),
{
    reveal_with_fuel(Seq::filter, 2);
    if s.len() == 0 {
        assert(purge(s) =~= s);
    } else {
        lemma_purge_id(s.drop_last());
        assert(not_tombstone(s.last()));
        assert(purge(s) =~= s.drop_last().push(s.last()));
        assert(purge(s) =~= s);
    }
}

/// A sequence in reduced form without tombstones is a fixed point of the
/// preprocessor: the sweep finds nothing to rewrite and the purge finds
/// nothing to remove.
pub proof fn lemma_preprocess_fixed_point(s: Seq<EnPhoneme>)
    requires
        is_reduced(s),
        tombstone_free(s),
    ensures
        preprocess_spec(s) == s,
{
    lemma_sweep_reduced(s, 0);
    lemma_purge_id(s);
}

/// Idempotence of preprocessing: whenever a run of the preprocessor leaves
/// its output in reduced form, a second run produces no further change.
/// (A run does not always end in reduced form: purging a tombstone can move
/// two equal phonemes next to a boundary they did not flank before.)
pub proof fn lemma_preprocess_idempotent(s: Seq<EnPhoneme>)
    requires
        is_reduced(preprocess_spec(s)),
    ensures
        preprocess_spec(preprocess_spec(s)) == preprocess_spec(s),
{
    let t = sweep_from(s, 0);
    assert forall|j: int| 0 <= j < preprocess_spec(s).len() implies not_tombstone(
        #[trigger] preprocess_spec(s)[j],
    ) by {
        t.lemma_filter_pred(|p: EnPhoneme| not_tombstone(p), j);
    }
    lemma_preprocess_fixed_point(preprocess_spec(s));
}

/// Normalizes a phoneme sequence in place: one sweep applying degemination
/// and flapping, then a purge of the tombstones it produced (and of any
/// tombstone already present).  The output is tombstone-free.
pub fn preprocess(phonemes: &mut Vec<EnPhoneme>)
    ensures
        final(phonemes)@ == preprocess_spec(old(phonemes)@),
        forall|j: int|
            0 <= j < final(phonemes)@.len() ==> not_tombstone(#[trigger] final(phonemes)@[j]),
{
    let ghost orig: Seq<EnPhoneme> = phonemes@;
    let n = phonemes.len();
    let mut i: usize = 0;
    while i < n
        invariant
            i <= n,
            n == phonemes.len(),
            sweep_from(phonemes@, i as int) == sweep_from(orig, 0),
        decreases n - i,
    {
        proof {
            assert(sweep_from(phonemes@, i as int) == sweep_from(
                sweep_step(phonemes@, i as int),
                i + 1,
            ));
        }
        if n - i > 2 && phonemes[i + 1] == EnPhoneme::Space && phonemes[i] == phonemes[i + 2] {
            phonemes[i] = EnPhoneme::Tombstone;
        } else if n - i > 3 && phonemes[i + 2] == EnPhoneme::Space && matches!(
            phonemes[i],
            EnPhoneme::Vowel(_, _),
        ) && phonemes[i + 1] == EnPhoneme::Consonant(EnConsonant::T) && matches!(
            phonemes[i + 3],
            EnPhoneme::Vowel(_, _),
        ) {
            phonemes[i + 2] = EnPhoneme::Tombstone;
            phonemes[i + 1] = EnPhoneme::Consonant(EnConsonant::L);
        }
        i += 1;
    }
    let mut out: Vec<EnPhoneme> = Vec::new();
    proof {
        reveal_with_fuel(Seq::filter, 2);
        assert(phonemes@.take(0) =~= Seq::<EnPhoneme>::empty());
    }
    let mut j: usize = 0;
    while j < n
        invariant
            j <= n,
            n == phonemes.len(),
            phonemes@ == sweep_from(orig, 0),
            out@ == purge(phonemes@.take(j as int)),
        decreases n - j,
    {
        proof {
            reveal_with_fuel(Seq::filter, 2);
            let t = phonemes@.take(j + 1);
            assert(t.drop_last() =~= phonemes@.take(j as int));
            assert(t.last() == phonemes@[j as int]);
        }
        let p = phonemes[j];
        if !matches!(p, EnPhoneme::Tombstone) {
            out.push(p);
        }
        j += 1;
    }
    proof {
        assert(phonemes@.take(n as int) =~= phonemes@);
        assert forall|k: int| 0 <= k < out@.len() implies not_tombstone(#[trigger] out@[k]) by {
            phonemes@.lemma_filter_pred(|p: EnPhoneme| not_tombstone(p), k);
        }
    }
    *phonemes = out;
}

} // verus!
