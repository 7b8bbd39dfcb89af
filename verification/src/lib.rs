//! English-to-katakana phonetic transcription.
//!
//! The crate turns sequences of English pronunciation phonemes
//! (ARPAbet-style symbols, as found in pronunciation dictionaries) into a
//! Japanese phonetic transcription rendered as katakana text.  The pipeline
//! has three stages: an allophonic preprocessor that normalizes the raw
//! phoneme stream ([`prep`]), and a context-sensitive transliterator plus a
//! mora renderer ([`jp_phoneme`]).  [`KatakanaEigo`] holds a pronunciation
//! dictionary and drives the whole pipeline over each word of a sentence.

use vstd::prelude::*;

pub mod arpabet;
pub mod jp_phoneme;
pub mod prep;

use crate::arpabet::EnPhoneme;
use crate::jp_phoneme::to_ja;
use crate::jp_phoneme::to_ja_spec;
use crate::prep::preprocess;
use crate::prep::preprocess_spec;

verus! {

/// Whether a character separates words of the input sentence.
pub open spec fn is_delimiter(c: char) -> bool {
    c == ' ' || c == ',' || c == '.'
}

/// ASCII uppercasing of one character; everything outside `a`..`z` is
/// left unchanged.
pub open spec fn upper_char(c: char) -> char {
    if 'a' <= c && c <= 'z' {
        ((c as u32) - 32) as char
    } else {
        c
    }
}

/// ASCII uppercasing of a word.
pub open spec fn upper_seq(s: Seq<char>) -> Seq<char> {
    s.map_values(|c: char| upper_char(c))
}

/// What one looked-up word contributes to the sentence's phoneme
/// sequence: its pronunciation plus a trailing boundary if the dictionary
/// knows the word (after ASCII uppercasing), nothing otherwise.
pub open spec fn word_phonemes(dict: Map<Seq<char>, Seq<EnPhoneme>>, w: Seq<char>) -> Seq<
    EnPhoneme,
> {
    if dict.contains_key(upper_seq(w)) {
        dict[upper_seq(w)] + seq![EnPhoneme::Space]
    } else {
        seq![]
    }
}

/// The phoneme sequence contributed by the text from the word starting at
/// `start`, with the scan standing at `i`: each delimiter closes a word,
/// and the end of the text closes the last one.
pub open spec fn sentence_from(
    dict: Map<Seq<char>, Seq<EnPhoneme>>,
    text: Seq<char>,
    start: int,
    i: int,
) -> Seq<EnPhoneme>
    recommends
        0 <= start <= i <= text.len(),
    decreases text.len() - i,
{
    if i < 0 || i >= text.len() {
        word_phonemes(dict, text.subrange(start, text.len() as int))
    } else if is_delimiter(text[i]) {
        word_phonemes(dict, text.subrange(start, i)) + sentence_from(dict, text, i + 1, i + 1)
    } else {
        sentence_from(dict, text, start, i + 1)
    }
}

/// The phoneme sequence of a whole sentence: the concatenation of what
/// each of its words contributes, in order.
pub open spec fn sentence_spec(dict: Map<Seq<char>, Seq<EnPhoneme>>, text: Seq<char>) -> Seq<
    EnPhoneme,
> {
    sentence_from(dict, text, 0, 0)
}

/// The katakana transcription of a sentence under a dictionary: look each
/// word up, preprocess the assembled phoneme sequence, transliterate and
/// render it.
pub open spec fn katakanize_spec(dict: Map<Seq<char>, Seq<EnPhoneme>>, text: Seq<char>) -> Seq<
    char,
> {
    to_ja_spec(preprocess_spec(sentence_spec(dict, text)))
}

/// The dictionary entries as a map from word to pronunciation; a later
/// entry for the same word wins.
pub open spec fn entries_map(s: Seq<(String, Vec<EnPhoneme>)>) -> Map<Seq<char>, Seq<EnPhoneme>>
    decreases s.len(),
{
    if s.len() == 0 {
        Map::empty()
    } else {
        entries_map(s.drop_last()).insert(s.last().0@, s.last().1@)
    }
}

/// An English-to-katakana transcriber: a pronunciation dictionary and the
/// phoneme pipeline over it.
pub struct KatakanaEigo {
    dictionary: Vec<(String, Vec<EnPhoneme>)>,
}

impl View for KatakanaEigo {
    type V = Map<Seq<char>, Seq<EnPhoneme>>;

    closed spec fn view(&self) -> Map<Seq<char>, Seq<EnPhoneme>> {
        entries_map(self.dictionary@)
    }
}

proof fn lemma_entries_map_absent(s: Seq<(String, Vec<EnPhoneme>)>, key: Seq<char>)
    requires
        forall|j: int| 0 <= j < s.len() ==> (#[trigger] s[j].0)@ != key,
    ensures
        !entries_map(s).contains_key(key),
    decreases s.len(),
{
    if s.len() > 0 {
        lemma_entries_map_absent(s.drop_last(), key);
    }
}

proof fn lemma_entries_map_found(s: Seq<(String, Vec<EnPhoneme>)>, key: Seq<char>, j: int)
    requires
        forall|a: int, b: int| 0 <= a < b < s.len() ==> (#[trigger] s[a].0)@ != (#[trigger] s[b].0)@,
        0 <= j < s.len(),
        s[j].0@ == key,
    ensures
        entries_map(s).contains_key(key),
        entries_map(s)[key] == s[j].1@,
    decreases s.len(),
{
    if j == s.len() - 1 {
    } else {
        assert(s[j].0@ != s[s.len() - 1].0@);
        lemma_entries_map_found(s.drop_last(), key, j);
    }
}

impl KatakanaEigo {
    /// Whether the stored entries carry distinct words, so that a linear
    /// scan agrees with the map view.
    pub closed spec fn wf(&self) -> bool {
        forall|a: int, b: int|
            0 <= a < b < self.dictionary@.len() ==> (#[trigger] self.dictionary@[a].0)@
                != (#[trigger] self.dictionary@[b].0)@
    }

    /// An empty dictionary.
    pub fn new() -> (r: Self)
        ensures
            r.wf(),
            r@ == Map::<Seq<char>, Seq<EnPhoneme>>::empty(),
    {
        KatakanaEigo { dictionary: Vec::new() }
    }

    /// Adds one dictionary entry; an entry already present for the same
    /// word is replaced.
    pub fn add_word(&mut self, word: String, pronunciation: Vec<EnPhoneme>)
        requires
            old(self).wf(),
        ensures
            final(self).wf(),
            final(self)@ == old(self)@.insert(word@, pronunciation@),
    {
        let n = self.dictionary.len();
        let mut idx: usize = 0;
        while idx < n
            invariant
                idx <= n,
                n == self.dictionary@.len(),
                self.wf(),
                self == old(self),
                forall|j: int| 0 <= j < idx ==> (#[trigger] self.dictionary@[j].0)@ != word@,
            decreases n - idx,
        {
            if compare_strings(&self.dictionary[idx].0, &word) {
                let ghost entries0 = self.dictionary@;
                self.dictionary[idx] = (word, pronunciation);
                proof {
                    lemma_entries_map_update(entries0, idx as int, self.dictionary@[idx as int]);
                }
                return ;
            }
            idx += 1;
        }
        let ghost entries0 = self.dictionary@;
        self.dictionary.push((word, pronunciation));
        proof {
            assert(self.dictionary@.drop_last() =~= entries0);
        }
    }

    /// Transcribes a sentence: splits it at spaces, commas and periods,
    /// looks each word up in the dictionary after ASCII uppercasing,
    /// strings the found pronunciations together with word boundaries,
    /// and runs the phoneme pipeline over the whole sequence.  Words the
    /// dictionary does not know are passed over in silence.
    pub fn katakanize(&self, input_text: &str) -> (r: String)
        requires
            self.wf(),
        ensures
            r@ == katakanize_spec(self@, input_text@),
    {
        let n = input_text.unicode_len();
        let mut sentence: Vec<EnPhoneme> = Vec::new();
        let mut start: usize = 0;
        let mut i: usize = 0;
        while i < n
            invariant
                start <= i <= n,
                n == input_text@.len(),
                self.wf(),
                sentence@ + sentence_from(self@, input_text@, start as int, i as int)
                    == sentence_spec(self@, input_text@),
            decreases n - i,
        {
            let c = input_text.get_char(i);
            if c == ' ' || c == ',' || c == '.' {
                self.push_word(input_text, start, i, &mut sentence);
                start = i + 1;
            }
            i += 1;
        }
        self.push_word(input_text, start, n, &mut sentence);
        proof {
            assert(input_text@.subrange(start as int, n as int) =~= input_text@.subrange(
                start as int,
                input_text@.len() as int,
            ));
        }
        preprocess(&mut sentence);
        to_ja(sentence.as_slice())
    }

    /// Appends what the word `text[start..end]` contributes to the
    /// sentence's phoneme sequence: the pronunciation its uppercase form
    /// names in the dictionary, and a trailing boundary, or nothing.
    fn push_word(&self, text: &str, start: usize, end: usize, sentence: &mut Vec<EnPhoneme>)
        requires
            self.wf(),
            start <= end <= text@.len(),
        ensures
            final(sentence)@ == old(sentence)@ + word_phonemes(
                self@,
                text@.subrange(start as int, end as int),
            ),
    {
        match self.lookup(text, start, end) {
            Some(pronunciation) => {
                let m = pronunciation.len();
                let ghost sent0 = sentence@;
                let mut j: usize = 0;
                while j < m
                    invariant
                        j <= m,
                        m == pronunciation@.len(),
                        sentence@ == sent0 + pronunciation@.take(j as int),
                    decreases m - j,
                {
                    sentence.push(pronunciation[j]);
                    proof {
                        assert(pronunciation@.take(j + 1) =~= pronunciation@.take(j as int).push(
                            pronunciation@[j as int],
                        ));
                    }
                    j += 1;
                }
                sentence.push(EnPhoneme::Space);
                proof {
                    assert(pronunciation@.take(m as int) =~= pronunciation@);
                    assert(sentence@ =~= sent0 + word_phonemes(
                        self@,
                        text@.subrange(start as int, end as int),
                    ));
                }
            },
            None => {
                proof {
                    assert(sentence@ =~= sentence@ + word_phonemes(
                        self@,
                        text@.subrange(start as int, end as int),
                    ));
                }
            },
        }
    }

    /// Finds the pronunciation stored for the ASCII uppercase form of
    /// `text[start..end]`, if any.
    fn lookup<'a>(&'a self, text: &str, start: usize, end: usize) -> (r: Option<
        &'a Vec<EnPhoneme>,
    >)
        requires
            self.wf(),
            start <= end <= text@.len(),
        ensures
            match r {
                Some(p) => self@.contains_key(upper_seq(text@.subrange(start as int, end as int)))
                    && p@ == self@[upper_seq(text@.subrange(start as int, end as int))],
                None => !self@.contains_key(upper_seq(text@.subrange(start as int, end as int))),
            },
    {
        let ghost key = upper_seq(text@.subrange(start as int, end as int));
        let n = self.dictionary.len();
        let mut idx: usize = 0;
        while idx < n
            invariant
                idx <= n,
                n == self.dictionary@.len(),
                self.wf(),
                start <= end <= text@.len(),
                key == upper_seq(text@.subrange(start as int, end as int)),
                forall|j: int| 0 <= j < idx ==> (#[trigger] self.dictionary@[j].0)@ != key,
            decreases n - idx,
        {
            if key_matches(&self.dictionary[idx].0, text, start, end) {
                proof {
                    lemma_entries_map_found(self.dictionary@, key, idx as int);
                }
                return Some(&self.dictionary[idx].1);
            }
            idx += 1;
        }
        proof {
            lemma_entries_map_absent(self.dictionary@, key);
        }
        None
    }
}

proof fn lemma_entries_map_update(
    s: Seq<(String, Vec<EnPhoneme>)>,
    j: int,
    entry: (String, Vec<EnPhoneme>),
)
    requires
        forall|a: int, b: int| 0 <= a < b < s.len() ==> (#[trigger] s[a].0)@ != (#[trigger] s[b].0)@,
        0 <= j < s.len(),
        entry.0@ == s[j].0@,
    ensures
        entries_map(s.update(j, entry)) == entries_map(s).insert(entry.0@, entry.1@),
    decreases s.len(),
{
    let t = s.update(j, entry);
    if j == s.len() - 1 {
        assert(t.drop_last() =~= s.drop_last());
        assert(entries_map(t) =~= entries_map(s).insert(entry.0@, entry.1@));
    } else {
        assert(t.drop_last() =~= s.drop_last().update(j, entry));
        lemma_entries_map_update(s.drop_last(), j, entry);
        assert(t.last() == s.last());
        assert(s.last().0@ != entry.0@);
        assert(entries_map(t) =~= entries_map(s).insert(entry.0@, entry.1@));
    }
}

/// Whether two words are the same string.
fn compare_strings(a: &String, b: &String) -> (r: bool)
    ensures
        r == (a@ == b@),
{
    a.eq(b)
}

/// Whether `key` is exactly the ASCII uppercase form of `text[start..end]`.
fn key_matches(key: &String, text: &str, start: usize, end: usize) -> (r: bool)
    requires
        start <= end <= text@.len(),
    ensures
        r == (key@ == upper_seq(text@.subrange(start as int, end as int))),
{
    let ghost word = text@.subrange(start as int, end as int);
    let m = key.as_str().unicode_len();
    if m != end - start {
        proof {
            assert(upper_seq(word).len() == word.len());
        }
        return false;
    }
    let mut j: usize = 0;
    while j < m
        invariant
            j <= m,
            m == key@.len(),
            m == end - start,
            start <= end <= text@.len(),
            word == text@.subrange(start as int, end as int),
            forall|k: int| 0 <= k < j ==> key@[k] == upper_seq(word)[k],
        decreases m - j,
    {
        let kc = key.as_str().get_char(j);
        let tc = upper(text.get_char(start + j));
        if kc != tc {
            proof {
                assert(upper_seq(word)[j as int] == upper_char(word[j as int]));
            }
            return false;
        }
        j += 1;
    }
    proof {
        assert(key@ =~= upper_seq(word));
    }
    true
}

/// ASCII uppercasing of one character.
fn upper(c: char) -> (r: char)
    ensures
        r == upper_char(c),
{
    if c >= 'a' && c <= 'z' {
        ((c as u8) - 32) as char
    } else {
        c
    }
}

} // verus!

