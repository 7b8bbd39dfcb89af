//! The Japanese side of the phoneme model, the transliterator and the
//! renderer.
//!
//! [`to_ja`] maps an English phoneme sequence to katakana text in two
//! passes: [`transliterate`] turns English phonemes into Japanese phonetic
//! units, applying nasal assimilation, affricate contraction, default-vowel
//! synthesis and diphthong decomposition, and [`render`] pairs each
//! consonant unit with its following vowel through the fixed mora table.

use vstd::prelude::*;

use crate::arpabet::{EnConsonant, EnPhoneme, EnVowel};

verus! {

/// A katakana consonant class.  `Nn` is the mora nasal and `Long` the
/// vowel-lengthening mark; both stand alone, while every other class must
/// pair with a following vowel.
#[derive(PartialEq, Eq, Clone, Copy, Debug, Structural)]
pub enum JaConsonant {
    B,
    Ch,
    D,
    Dy,
    F,
    G,
    H,
    J,
    K,
    M,
    N,
    P,
    R,
    S,
    Sh,
    T,
    Ts,
    V,
    W,
    Y,
    Z,
    Nn,
    Long,
}

/// A Japanese vowel class.
#[derive(PartialEq, Eq, Clone, Copy, Debug, Structural)]
pub enum JaVowel {
    A,
    I,
    U,
    E,
    O,
}

/// One element of a Japanese phonetic-unit sequence.  The alphabet has no
/// tombstone: the transliterator drops elements instead of marking them,
/// so its output never needs a purge.
#[derive(PartialEq, Eq, Clone, Copy, Debug, Structural)]
pub enum JaPhoneme {
    Consonant(JaConsonant),
    Vowel(JaVowel),
    Space,
}

/// The context-free map from English to Japanese consonant classes.
pub open spec fn consonant_map(c: EnConsonant) -> JaConsonant {
    match c {
        EnConsonant::B => JaConsonant::B,
        EnConsonant::CH => JaConsonant::Ch,
        EnConsonant::D => JaConsonant::D,
        EnConsonant::DH => JaConsonant::Dy,
        EnConsonant::F => JaConsonant::F,
        EnConsonant::G => JaConsonant::G,
        EnConsonant::HH => JaConsonant::H,
        EnConsonant::JH => JaConsonant::J,
        EnConsonant::K => JaConsonant::K,
        EnConsonant::L => JaConsonant::R,
        EnConsonant::M => JaConsonant::M,
        EnConsonant::N => JaConsonant::N,
        EnConsonant::NG => JaConsonant::G,
        EnConsonant::P => JaConsonant::P,
        EnConsonant::R => JaConsonant::R,
        EnConsonant::S => JaConsonant::S,
        EnConsonant::SH => JaConsonant::Sh,
        EnConsonant::T => JaConsonant::T,
        EnConsonant::TH => JaConsonant::Sh,
        EnConsonant::V => JaConsonant::V,
        EnConsonant::W => JaConsonant::W,
        EnConsonant::Y => JaConsonant::Y,
        EnConsonant::Z => JaConsonant::Z,
        EnConsonant::ZH => JaConsonant::J,
    }
}

/// The context-free map from English vowel classes to the five Japanese
/// vowels.
pub open spec fn vowel_map(v: EnVowel) -> JaVowel {
    match v {
        EnVowel::AA => JaVowel::A,
        EnVowel::AE => JaVowel::A,
        EnVowel::AH => JaVowel::A,
        EnVowel::AO => JaVowel::A,
        EnVowel::AW => JaVowel::A,
        EnVowel::AY => JaVowel::A,
        EnVowel::EH => JaVowel::E,
        EnVowel::ER => JaVowel::A,
        EnVowel::EY => JaVowel::E,
        EnVowel::IH => JaVowel::I,
        EnVowel::IY => JaVowel::I,
        EnVowel::OW => JaVowel::O,
        EnVowel::OY => JaVowel::O,
        EnVowel::UH => JaVowel::U,
        EnVowel::UW => JaVowel::U,
    }
}

/// Maps an English consonant class to its katakana consonant class.
pub fn katakana_consonant(consonant: &EnConsonant) -> (r: JaConsonant)
    ensures
        r == consonant_map(*consonant),
{
    match consonant {
        EnConsonant::B => JaConsonant::B,
        EnConsonant::CH => JaConsonant::Ch,
        EnConsonant::D => JaConsonant::D,
        EnConsonant::DH => JaConsonant::Dy,
        EnConsonant::F => JaConsonant::F,
        EnConsonant::G => JaConsonant::G,
        EnConsonant::HH => JaConsonant::H,
        EnConsonant::JH => JaConsonant::J,
        EnConsonant::K => JaConsonant::K,
        EnConsonant::L => JaConsonant::R,
        EnConsonant::M => JaConsonant::M,
        EnConsonant::N => JaConsonant::N,
        EnConsonant::NG => JaConsonant::G,
        EnConsonant::P => JaConsonant::P,
        EnConsonant::R => JaConsonant::R,
        EnConsonant::S => JaConsonant::S,
        EnConsonant::SH => JaConsonant::Sh,
        EnConsonant::T => JaConsonant::T,
        EnConsonant::TH => JaConsonant::Sh,
        EnConsonant::V => JaConsonant::V,
        EnConsonant::W => JaConsonant::W,
        EnConsonant::Y => JaConsonant::Y,
        EnConsonant::Z => JaConsonant::Z,
        EnConsonant::ZH => JaConsonant::J,
    }
}

/// Maps an English vowel class to its Japanese vowel class.
pub fn katakana_vowel(vowel: &EnVowel) -> (r: JaVowel)
    ensures
        r == vowel_map(*vowel),
{
    match vowel {
        EnVowel::AA => JaVowel::A,
        EnVowel::AE => JaVowel::A,
        EnVowel::AH => JaVowel::A,
        EnVowel::AO => JaVowel::A,
        EnVowel::AW => JaVowel::A,
        EnVowel::AY => JaVowel::A,
        EnVowel::EH => JaVowel::E,
        EnVowel::ER => JaVowel::A,
        EnVowel::EY => JaVowel::E,
        EnVowel::IH => JaVowel::I,
        EnVowel::IY => JaVowel::I,
        EnVowel::OW => JaVowel::O,
        EnVowel::OY => JaVowel::O,
        EnVowel::UH => JaVowel::U,
        EnVowel::UW => JaVowel::U,
    }
}

/// The domain of the mora table: every plain consonant class pairs with
/// every vowel, `Ts` pairs only with `U`, and the two stand-alone marks
/// `Nn` and `Long` never pair at all.
pub open spec fn mora_defined(c: JaConsonant, v: JaVowel) -> bool {
    &&& c != JaConsonant::Nn
    &&& c != JaConsonant::Long
    &&& (c == JaConsonant::Ts ==> v == JaVowel::U)
}

/// The mora table: the katakana spelling of each defined (consonant, vowel)
/// pair.
pub open spec fn mora_chars(c: JaConsonant, v: JaVowel) -> Seq<char> {
    match (c, v) {
        (JaConsonant::B, JaVowel::A) => "バ"@,
        (JaConsonant::B, JaVowel::I) => "ビ"@,
        (JaConsonant::B, JaVowel::U) => "ブ"@,
        (JaConsonant::B, JaVowel::E) => "ベ"@,
        (JaConsonant::B, JaVowel::O) => "ボ"@,
        (JaConsonant::Ch, JaVowel::A) => "チャ"@,
        (JaConsonant::Ch, JaVowel::I) => "チ"@,
        (JaConsonant::Ch, JaVowel::U) => "チュ"@,
        (JaConsonant::Ch, JaVowel::E) => "チェ"@,
        (JaConsonant::Ch, JaVowel::O) => "チョ"@,
        (JaConsonant::D, JaVowel::A) => "ダ"@,
        (JaConsonant::D, JaVowel::I) => "ディ"@,
        (JaConsonant::D, JaVowel::U) => "ドゥ"@,
        (JaConsonant::D, JaVowel::E) => "デ"@,
        (JaConsonant::D, JaVowel::O) => "ド"@,
        (JaConsonant::Dy, JaVowel::A) => "ザ"@,
        (JaConsonant::Dy, JaVowel::I) => "ディ"@,
        (JaConsonant::Dy, JaVowel::U) => "デュ"@,
        (JaConsonant::Dy, JaVowel::E) => "ゼ"@,
        (JaConsonant::Dy, JaVowel::O) => "ジョ"@,
        (JaConsonant::F, JaVowel::A) => "ファ"@,
        (JaConsonant::F, JaVowel::I) => "フィ"@,
        (JaConsonant::F, JaVowel::U) => "フ"@,
        (JaConsonant::F, JaVowel::E) => "フェ"@,
        (JaConsonant::F, JaVowel::O) => "フォ"@,
        (JaConsonant::G, JaVowel::A) => "ガ"@,
        (JaConsonant::G, JaVowel::I) => "ギ"@,
        (JaConsonant::G, JaVowel::U) => "グ"@,
        (JaConsonant::G, JaVowel::E) => "ゲ"@,
        (JaConsonant::G, JaVowel::O) => "ゴ"@,
        (JaConsonant::H, JaVowel::A) => "ハ"@,
        (JaConsonant::H, JaVowel::I) => "ヒ"@,
        (JaConsonant::H, JaVowel::U) => "フ"@,
        (JaConsonant::H, JaVowel::E) => "ヘ"@,
        (JaConsonant::H, JaVowel::O) => "ホ"@,
        (JaConsonant::J, JaVowel::A) => "ジャ"@,
        (JaConsonant::J, JaVowel::I) => "ジ"@,
        (JaConsonant::J, JaVowel::U) => "ジュ"@,
        (JaConsonant::J, JaVowel::E) => "ジェ"@,
        (JaConsonant::J, JaVowel::O) => "ジョ"@,
        (JaConsonant::K, JaVowel::A) => "カ"@,
        (JaConsonant::K, JaVowel::I) => "キ"@,
        (JaConsonant::K, JaVowel::U) => "ク"@,
        (JaConsonant::K, JaVowel::E) => "ケ"@,
        (JaConsonant::K, JaVowel::O) => "コ"@,
        (JaConsonant::M, JaVowel::A) => "マ"@,
        (JaConsonant::M, JaVowel::I) => "ミ"@,
        (JaConsonant::M, JaVowel::U) => "ム"@,
        (JaConsonant::M, JaVowel::E) => "メ"@,
        (JaConsonant::M, JaVowel::O) => "モ"@,
        (JaConsonant::N, JaVowel::A) => "ナ"@,
        (JaConsonant::N, JaVowel::I) => "ニ"@,
        (JaConsonant::N, JaVowel::U) => "ヌ"@,
        (JaConsonant::N, JaVowel::E) => "ネ"@,
        (JaConsonant::N, JaVowel::O) => "ノ"@,
        (JaConsonant::P, JaVowel::A) => "パ"@,
        (JaConsonant::P, JaVowel::I) => "ピ"@,
        (JaConsonant::P, JaVowel::U) => "プ"@,
        (JaConsonant::P, JaVowel::E) => "ペ"@,
        (JaConsonant::P, JaVowel::O) => "ポ"@,
        (JaConsonant::R, JaVowel::A) => "ラ"@,
        (JaConsonant::R, JaVowel::I) => "リ"@,
        (JaConsonant::R, JaVowel::U) => "ル"@,
        (JaConsonant::R, JaVowel::E) => "レ"@,
        (JaConsonant::R, JaVowel::O) => "ロ"@,
        (JaConsonant::S, JaVowel::A) => "サ"@,
        (JaConsonant::S, JaVowel::I) => "シ"@,
        (JaConsonant::S, JaVowel::U) => "ス"@,
        (JaConsonant::S, JaVowel::E) => "セ"@,
        (JaConsonant::S, JaVowel::O) => "ソ"@,
        (JaConsonant::Sh, JaVowel::A) => "シャ"@,
        (JaConsonant::Sh, JaVowel::I) => "シ"@,
        (JaConsonant::Sh, JaVowel::U) => "シュ"@,
        (JaConsonant::Sh, JaVowel::E) => "シェ"@,
        (JaConsonant::Sh, JaVowel::O) => "ショ"@,
        (JaConsonant::T, JaVowel::A) => "タ"@,
        (JaConsonant::T, JaVowel::I) => "ティ"@,
        (JaConsonant::T, JaVowel::U) => "トゥ"@,
        (JaConsonant::T, JaVowel::E) => "テ"@,
        (JaConsonant::T, JaVowel::O) => "ト"@,
        (JaConsonant::Ts, JaVowel::U) => "ツ"@,
        (JaConsonant::V, JaVowel::A) => "ヴァ"@,
        (JaConsonant::V, JaVowel::I) => "ヴィ"@,
        (JaConsonant::V, JaVowel::U) => "ヴ"@,
        (JaConsonant::V, JaVowel::E) => "ヴェ"@,
        (JaConsonant::V, JaVowel::O) => "ヴォ"@,
        (JaConsonant::W, JaVowel::A) => "ワ"@,
        (JaConsonant::W, JaVowel::I) => "ウィ"@,
        (JaConsonant::W, JaVowel::U) => "ウ"@,
        (JaConsonant::W, JaVowel::E) => "ウェ"@,
        (JaConsonant::W, JaVowel::O) => "ヲ"@,
        (JaConsonant::Y, JaVowel::A) => "ヤ"@,
        (JaConsonant::Y, JaVowel::I) => "イ"@,
        (JaConsonant::Y, JaVowel::U) => "ユ"@,
        (JaConsonant::Y, JaVowel::E) => "イェ"@,
        (JaConsonant::Y, JaVowel::O) => "ヨ"@,
        (JaConsonant::Z, JaVowel::A) => "ザ"@,
        (JaConsonant::Z, JaVowel::I) => "ズィ"@,
        (JaConsonant::Z, JaVowel::U) => "ズ"@,
        (JaConsonant::Z, JaVowel::E) => "ゼ"@,
        (JaConsonant::Z, JaVowel::O) => "ゾ"@,
        _ => ""@,
    }
}

/// The bare glyph of a vowel that stands without a buffered consonant.
pub open spec fn vowel_chars(v: JaVowel) -> Seq<char> {
    match v {
        JaVowel::A => "ア"@,
        JaVowel::I => "イ"@,
        JaVowel::U => "ウ"@,
        JaVowel::E => "エ"@,
        JaVowel::O => "オ"@,
    }
}

/// Looks a defined (consonant, vowel) pair up in the mora table.  Pairs the
/// transliterator cannot produce are excluded by the caller's obligation,
/// never looked up.
pub fn to_mora(katakana_consonant: &JaConsonant, katakana_vowel: &JaVowel) -> (r: &'static str)
    requires
        mora_defined(*katakana_consonant, *katakana_vowel),
    ensures
        r@ == mora_chars(*katakana_consonant, *katakana_vowel),
{
    match (katakana_consonant, katakana_vowel) {
        (JaConsonant::B, JaVowel::A) => "バ",
        (JaConsonant::B, JaVowel::I) => "ビ",
        (JaConsonant::B, JaVowel::U) => "ブ",
        (JaConsonant::B, JaVowel::E) => "ベ",
        (JaConsonant::B, JaVowel::O) => "ボ",
        (JaConsonant::Ch, JaVowel::A) => "チャ",
        (JaConsonant::Ch, JaVowel::I) => "チ",
        (JaConsonant::Ch, JaVowel::U) => "チュ",
        (JaConsonant::Ch, JaVowel::E) => "チェ",
        (JaConsonant::Ch, JaVowel::O) => "チョ",
        (JaConsonant::D, JaVowel::A) => "ダ",
        (JaConsonant::D, JaVowel::I) => "ディ",
        (JaConsonant::D, JaVowel::U) => "ドゥ",
        (JaConsonant::D, JaVowel::E) => "デ",
        (JaConsonant::D, JaVowel::O) => "ド",
        (JaConsonant::Dy, JaVowel::A) => "ザ",
        (JaConsonant::Dy, JaVowel::I) => "ディ",
        (JaConsonant::Dy, JaVowel::U) => "デュ",
        (JaConsonant::Dy, JaVowel::E) => "ゼ",
        (JaConsonant::Dy, JaVowel::O) => "ジョ",
        (JaConsonant::F, JaVowel::A) => "ファ",
        (JaConsonant::F, JaVowel::I) => "フィ",
        (JaConsonant::F, JaVowel::U) => "フ",
        (JaConsonant::F, JaVowel::E) => "フェ",
        (JaConsonant::F, JaVowel::O) => "フォ",
        (JaConsonant::G, JaVowel::A) => "ガ",
        (JaConsonant::G, JaVowel::I) => "ギ",
        (JaConsonant::G, JaVowel::U) => "グ",
        (JaConsonant::G, JaVowel::E) => "ゲ",
        (JaConsonant::G, JaVowel::O) => "ゴ",
        (JaConsonant::H, JaVowel::A) => "ハ",
        (JaConsonant::H, JaVowel::I) => "ヒ",
        (JaConsonant::H, JaVowel::U) => "フ",
        (JaConsonant::H, JaVowel::E) => "ヘ",
        (JaConsonant::H, JaVowel::O) => "ホ",
        (JaConsonant::J, JaVowel::A) => "ジャ",
        (JaConsonant::J, JaVowel::I) => "ジ",
        (JaConsonant::J, JaVowel::U) => "ジュ",
        (JaConsonant::J, JaVowel::E) => "ジェ",
        (JaConsonant::J, JaVowel::O) => "ジョ",
        (JaConsonant::K, JaVowel::A) => "カ",
        (JaConsonant::K, JaVowel::I) => "キ",
        (JaConsonant::K, JaVowel::U) => "ク",
        (JaConsonant::K, JaVowel::E) => "ケ",
        (JaConsonant::K, JaVowel::O) => "コ",
        (JaConsonant::M, JaVowel::A) => "マ",
        (JaConsonant::M, JaVowel::I) => "ミ",
        (JaConsonant::M, JaVowel::U) => "ム",
        (JaConsonant::M, JaVowel::E) => "メ",
        (JaConsonant::M, JaVowel::O) => "モ",
        (JaConsonant::N, JaVowel::A) => "ナ",
        (JaConsonant::N, JaVowel::I) => "ニ",
        (JaConsonant::N, JaVowel::U) => "ヌ",
        (JaConsonant::N, JaVowel::E) => "ネ",
        (JaConsonant::N, JaVowel::O) => "ノ",
        (JaConsonant::P, JaVowel::A) => "パ",
        (JaConsonant::P, JaVowel::I) => "ピ",
        (JaConsonant::P, JaVowel::U) => "プ",
        (JaConsonant::P, JaVowel::E) => "ペ",
        (JaConsonant::P, JaVowel::O) => "ポ",
        (JaConsonant::R, JaVowel::A) => "ラ",
        (JaConsonant::R, JaVowel::I) => "リ",
        (JaConsonant::R, JaVowel::U) => "ル",
        (JaConsonant::R, JaVowel::E) => "レ",
        (JaConsonant::R, JaVowel::O) => "ロ",
        (JaConsonant::S, JaVowel::A) => "サ",
        (JaConsonant::S, JaVowel::I) => "シ",
        (JaConsonant::S, JaVowel::U) => "ス",
        (JaConsonant::S, JaVowel::E) => "セ",
        (JaConsonant::S, JaVowel::O) => "ソ",
        (JaConsonant::Sh, JaVowel::A) => "シャ",
        (JaConsonant::Sh, JaVowel::I) => "シ",
        (JaConsonant::Sh, JaVowel::U) => "シュ",
        (JaConsonant::Sh, JaVowel::E) => "シェ",
        (JaConsonant::Sh, JaVowel::O) => "ショ",
        (JaConsonant::T, JaVowel::A) => "タ",
        (JaConsonant::T, JaVowel::I) => "ティ",
        (JaConsonant::T, JaVowel::U) => "トゥ",
        (JaConsonant::T, JaVowel::E) => "テ",
        (JaConsonant::T, JaVowel::O) => "ト",
        (JaConsonant::Ts, JaVowel::U) => "ツ",
        (JaConsonant::V, JaVowel::A) => "ヴァ",
        (JaConsonant::V, JaVowel::I) => "ヴィ",
        (JaConsonant::V, JaVowel::U) => "ヴ",
        (JaConsonant::V, JaVowel::E) => "ヴェ",
        (JaConsonant::V, JaVowel::O) => "ヴォ",
        (JaConsonant::W, JaVowel::A) => "ワ",
        (JaConsonant::W, JaVowel::I) => "ウィ",
        (JaConsonant::W, JaVowel::U) => "ウ",
        (JaConsonant::W, JaVowel::E) => "ウェ",
        (JaConsonant::W, JaVowel::O) => "ヲ",
        (JaConsonant::Y, JaVowel::A) => "ヤ",
        (JaConsonant::Y, JaVowel::I) => "イ",
        (JaConsonant::Y, JaVowel::U) => "ユ",
        (JaConsonant::Y, JaVowel::E) => "イェ",
        (JaConsonant::Y, JaVowel::O) => "ヨ",
        (JaConsonant::Z, JaVowel::A) => "ザ",
        (JaConsonant::Z, JaVowel::I) => "ズィ",
        (JaConsonant::Z, JaVowel::U) => "ズ",
        (JaConsonant::Z, JaVowel::E) => "ゼ",
        (JaConsonant::Z, JaVowel::O) => "ゾ",
        _ => "",
    }
}

/// The consonant the transliterator buffers after handling the current
/// token: the token itself if it is a consonant, nothing otherwise.
pub open spec fn carried(cur: EnPhoneme) -> Option<EnConsonant> {
    match cur {
        EnPhoneme::Consonant(k) => Some(k),
        _ => None,
    }
}

/// Whether the lookahead position ends the current word: there is no next
/// element, or the next element is a word boundary.
pub open spec fn at_word_end(next: Option<EnPhoneme>) -> bool {
    match next {
        Some(p) => p == EnPhoneme::Space,
        None => true,
    }
}

/// Whether the current token closes a syllable: a consonant or a word
/// boundary (as opposed to a vowel, which the buffered consonant pairs
/// with directly).
pub open spec fn closes_syllable(cur: EnPhoneme) -> bool {
    cur is Consonant || cur == EnPhoneme::Space
}

/// Whether nasal assimilation fires: a buffered /n/ before any consonant
/// or boundary, or a buffered /m/ before a labial consonant.
pub open spec fn nasal_assimilation(p: EnConsonant, cur: EnPhoneme) -> bool {
    ||| (p == EnConsonant::N && closes_syllable(cur))
    ||| (p == EnConsonant::M && match cur {
        EnPhoneme::Consonant(k) => k == EnConsonant::B || k == EnConsonant::P || k
            == EnConsonant::M,
        _ => false,
    })
}

/// The rule table for a buffered consonant `p` meeting the token `cur`,
/// first match winning.  Returns the emitted units and the new buffer.
pub open spec fn translit_pending_step(
    p: EnConsonant,
    cur: EnPhoneme,
    next: Option<EnPhoneme>,
    last_a: bool,
) -> (Seq<JaPhoneme>, Option<EnConsonant>) {
    if nasal_assimilation(p, cur) {
        (seq![JaPhoneme::Consonant(JaConsonant::Nn)], carried(cur))
    } else if p == EnConsonant::R && closes_syllable(cur) && last_a {
        (seq![JaPhoneme::Consonant(JaConsonant::Long)], carried(cur))
    } else if p == EnConsonant::T && cur == EnPhoneme::Consonant(EnConsonant::S) && at_word_end(
        next,
    ) {
        (seq![JaPhoneme::Consonant(JaConsonant::Ts), JaPhoneme::Vowel(JaVowel::U)], None)
    } else if p == EnConsonant::D && cur == EnPhoneme::Consonant(EnConsonant::Z) && at_word_end(
        next,
    ) {
        (seq![JaPhoneme::Consonant(JaConsonant::Z), JaPhoneme::Vowel(JaVowel::U)], None)
    } else if p == EnConsonant::D && closes_syllable(cur) {
        (seq![JaPhoneme::Consonant(JaConsonant::D), JaPhoneme::Vowel(JaVowel::O)], carried(cur))
    } else if closes_syllable(cur) {
        if p == EnConsonant::NG {
            (
                seq![
                    JaPhoneme::Consonant(JaConsonant::Nn),
                    JaPhoneme::Consonant(consonant_map(p)),
                    JaPhoneme::Vowel(JaVowel::U),
                ],
                carried(cur),
            )
        } else {
            (
                seq![JaPhoneme::Consonant(consonant_map(p)), JaPhoneme::Vowel(JaVowel::U)],
                carried(cur),
            )
        }
    } else {
        match cur {
            EnPhoneme::Vowel(v, _) => if p == EnConsonant::NG {
                (
                    seq![
                        JaPhoneme::Consonant(JaConsonant::Nn),
                        JaPhoneme::Consonant(consonant_map(p)),
                        JaPhoneme::Vowel(vowel_map(v)),
                    ],
                    None,
                )
            } else {
                (
                    seq![
                        JaPhoneme::Consonant(consonant_map(p)),
                        JaPhoneme::Vowel(vowel_map(v)),
                    ],
                    None,
                )
            },
            _ => (seq![], Some(p)),
        }
    }
}

/// One step of the transliterator: what is emitted for the current token
/// and what consonant stays buffered.  `next` is the one-token lookahead
/// and `last_a` tells whether the unit last emitted was the vowel A.
pub open spec fn translit_step(
    pending: Option<EnConsonant>,
    cur: EnPhoneme,
    next: Option<EnPhoneme>,
    last_a: bool,
) -> (Seq<JaPhoneme>, Option<EnConsonant>) {
    match (pending, cur) {
        (None, EnPhoneme::Vowel(v, _)) => (seq![JaPhoneme::Vowel(vowel_map(v))], None),
        (None, EnPhoneme::Consonant(k)) => (seq![], Some(k)),
        (_, EnPhoneme::Tombstone) => (seq![], pending),
        (None, EnPhoneme::Space) => (seq![], None),
        (Some(p), _) => translit_pending_step(p, cur, next, last_a),
    }
}

/// The trailing augmentation, fired after every rule from the current
/// token alone: long vowels gain a length mark, diphthongs decompose into
/// a trailing glide vowel, and a word boundary is passed through.
pub open spec fn augment(cur: EnPhoneme) -> Seq<JaPhoneme> {
    match cur {
        EnPhoneme::Vowel(v, _) => if v == EnVowel::ER || v == EnVowel::IY || v == EnVowel::UH || v
            == EnVowel::UW {
            seq![JaPhoneme::Consonant(JaConsonant::Long)]
        } else if v == EnVowel::AY || v == EnVowel::EY || v == EnVowel::OY {
            seq![JaPhoneme::Vowel(JaVowel::I)]
        } else if v == EnVowel::AW || v == EnVowel::OW {
            seq![JaPhoneme::Vowel(JaVowel::U)]
        } else {
            seq![]
        },
        EnPhoneme::Space => seq![JaPhoneme::Space],
        _ => seq![],
    }
}

/// Whether the unit last emitted so far is the vowel A.
pub open spec fn last_is_a(out: Seq<JaPhoneme>) -> bool {
    out.len() > 0 && out.last() == JaPhoneme::Vowel(JaVowel::A)
}

/// The transliterator's forward pass from position `i` on, given the
/// buffered consonant and the units emitted so far.
pub open spec fn translit_from(
    s: Seq<EnPhoneme>,
    i: int,
    pending: Option<EnConsonant>,
    out: Seq<JaPhoneme>,
) -> Seq<JaPhoneme>
    decreases s.len() - i,
{
    if i < 0 || i >= s.len() {
        out
    } else {
        let next = if i + 1 < s.len() {
            Some(s[i + 1])
        } else {
            None
        };
        let (emit, p2) = translit_step(pending, s[i], next, last_is_a(out));
        translit_from(s, i + 1, p2, out + emit + augment(s[i]))
    }
}

/// The whole transliterator: one forward pass with an empty buffer.
pub open spec fn translit_spec(s: Seq<EnPhoneme>) -> Seq<JaPhoneme> {
    translit_from(s, 0, None, seq![])
}

/// Whether a unit is a plain consonant class, one that must pair with a
/// following vowel (everything except the stand-alone `Nn` and `Long`).
pub open spec fn is_plain_consonant(u: JaPhoneme) -> bool {
    match u {
        JaPhoneme::Consonant(c) => c != JaConsonant::Nn && c != JaConsonant::Long,
        _ => false,
    }
}

/// Whether two adjacent units form a pair the mora table defines.
pub open spec fn pair_defined(a: JaPhoneme, b: JaPhoneme) -> bool {
    match (a, b) {
        (JaPhoneme::Consonant(c), JaPhoneme::Vowel(v)) => mora_defined(c, v),
        _ => false,
    }
}

/// Well-formedness of a phonetic-unit sequence: every plain consonant
/// class unit is immediately followed by a vowel unit, and the pair lies
/// in the mora table's domain.
pub open spec fn wf_units(s: Seq<JaPhoneme>) -> bool {
    forall|i: int|
        0 <= i < s.len() && is_plain_consonant(#[trigger] s[i]) ==> i + 1 < s.len()
            && pair_defined(s[i], s[i + 1])
}

proof fn lemma_wf_concat(a: Seq<JaPhoneme>, b: Seq<JaPhoneme>)
    requires
        wf_units(a),
        wf_units(b),
    ensures
        wf_units(a + b),
{
    assert forall|i: int|
        0 <= i < (a + b).len() && is_plain_consonant(#[trigger] (a + b)[i]) implies i + 1 < (a
        + b).len() && pair_defined((a + b)[i], (a + b)[i + 1]) by {
        if i < a.len() {
            assert((a + b)[i] == a[i]);
            assert(i + 1 < a.len());
            assert((a + b)[i + 1] == a[i + 1]);
        } else {
            assert((a + b)[i] == b[i - a.len()]);
            assert((a + b)[i + 1] == b[i + 1 - a.len()]);
        }
    }
}

proof fn lemma_translit_from_wf(
    s: Seq<EnPhoneme>,
    i: int,
    pending: Option<EnConsonant>,
    out: Seq<JaPhoneme>,
)
    requires
        wf_units(out),
    ensures
        wf_units(translit_from(s, i, pending, out)),
    decreases s.len() - i,
{
    if 0 <= i < s.len() {
        let next = if i + 1 < s.len() {
            Some(s[i + 1])
        } else {
            None
        };
        let (emit, p2) = translit_step(pending, s[i], next, last_is_a(out));
        assert(wf_units(emit));
        assert(wf_units(augment(s[i])));
        lemma_wf_concat(out, emit);
        lemma_wf_concat(out + emit, augment(s[i]));
        lemma_translit_from_wf(s, i + 1, p2, out + emit + augment(s[i]));
    }
}

/// Pairing invariant and mora-table completeness: in everything the
/// transliterator emits, every plain consonant class unit is immediately
/// followed by a vowel unit, and that (consonant, vowel) pair has an entry
/// in the mora table.  No transliterator output can make the renderer look
/// up a missing pair.
pub proof fn lemma_transliterate_pairing(s: Seq<EnPhoneme>)
    ensures
        wf_units(translit_spec(s)),
{
    assert(wf_units(Seq::<JaPhoneme>::empty()));
    lemma_translit_from_wf(s, 0, None, seq![]);
}

/// The transliterator: a single forward pass with a one-slot buffer for a
/// consonant awaiting its vowel, applying nasal assimilation, length marks
/// after an A vowel before /r/, affricate contraction at word ends,
/// default-vowel synthesis for bare consonants, and diphthong
/// decomposition.
pub fn transliterate(phonemes: &[EnPhoneme]) -> (result: Vec<JaPhoneme>)
    ensures
        result@ == translit_spec(phonemes@),
        wf_units(result@),
{
    let n = phonemes.len();
    let mut result: Vec<JaPhoneme> = Vec::new();
    let mut prev: Option<EnConsonant> = None;
    let mut idx: usize = 0;
    while idx < n
        invariant
            idx <= n,
            n == phonemes@.len(),
            translit_from(phonemes@, idx as int, prev, result@) == translit_spec(phonemes@),
        decreases n - idx,
    {
        let ghost out0 = result@;
        let ghost prev0 = prev;
        let ghost next_g = if idx + 1 < n {
            Some(phonemes@[idx as int + 1])
        } else {
            None
        };
        let cur = phonemes[idx];
        let last_a = last_unit_is_a(&result);
        match (prev, cur) {
            (None, EnPhoneme::Vowel(v, _)) => {
                result.push(JaPhoneme::Vowel(katakana_vowel(&v)));
            },
            (None, EnPhoneme::Consonant(k)) => {
                prev = Some(k);
            },
            (_, EnPhoneme::Tombstone) => {},
            (None, EnPhoneme::Space) => {},
            (Some(p), _) => {
                if (p == EnConsonant::N && !matches!(cur, EnPhoneme::Vowel(_, _))) || (p
                    == EnConsonant::M && matches!(
                    cur,
                    EnPhoneme::Consonant(
                        EnConsonant::B
                        | EnConsonant::P
                        | EnConsonant::M,
                    ),
                )) {
                    result.push(JaPhoneme::Consonant(JaConsonant::Nn));
                    prev = send_to_next(cur);
                } else if p == EnConsonant::R && !matches!(cur, EnPhoneme::Vowel(_, _)) && last_a {
                    result.push(JaPhoneme::Consonant(JaConsonant::Long));
                    prev = send_to_next(cur);
                } else if p == EnConsonant::T && cur == EnPhoneme::Consonant(EnConsonant::S) && (idx
                    + 1 >= n || phonemes[idx + 1] == EnPhoneme::Space) {
                    result.push(JaPhoneme::Consonant(JaConsonant::Ts));
                    result.push(JaPhoneme::Vowel(JaVowel::U));
                    prev = None;
                } else if p == EnConsonant::D && cur == EnPhoneme::Consonant(EnConsonant::Z) && (idx
                    + 1 >= n || phonemes[idx + 1] == EnPhoneme::Space) {
                    result.push(JaPhoneme::Consonant(JaConsonant::Z));
                    result.push(JaPhoneme::Vowel(JaVowel::U));
                    prev = None;
                } else if p == EnConsonant::D && !matches!(cur, EnPhoneme::Vowel(_, _)) {
                    result.push(JaPhoneme::Consonant(JaConsonant::D));
                    result.push(JaPhoneme::Vowel(JaVowel::O));
                    prev = send_to_next(cur);
                } else if !matches!(cur, EnPhoneme::Vowel(_, _)) {
                    if p == EnConsonant::NG {
                        result.push(JaPhoneme::Consonant(JaConsonant::Nn));
                    }
                    result.push(JaPhoneme::Consonant(katakana_consonant(&p)));
                    result.push(JaPhoneme::Vowel(JaVowel::U));
                    prev = send_to_next(cur);
                } else {
                    match cur {
                        EnPhoneme::Vowel(v, _) => {
                            if p == EnConsonant::NG {
                                result.push(JaPhoneme::Consonant(JaConsonant::Nn));
                            }
                            result.push(JaPhoneme::Consonant(katakana_consonant(&p)));
                            result.push(JaPhoneme::Vowel(katakana_vowel(&v)));
                            prev = None;
                        },
                        _ => {
                            proof {
                                assert(false);
                            }
                        },
                    }
                }
            },
        }
        match cur {
            EnPhoneme::Vowel(
                EnVowel::ER
                | EnVowel::IY
                | EnVowel::UH
                | EnVowel::UW,
                _,
            ) => {
                result.push(JaPhoneme::Consonant(JaConsonant::Long));
            },
            EnPhoneme::Vowel(
                EnVowel::AY
                | EnVowel::EY
                | EnVowel::OY,
                _,
            ) => {
                result.push(JaPhoneme::Vowel(JaVowel::I));
            },
            EnPhoneme::Vowel(
                EnVowel::AW
                | EnVowel::OW,
                _,
            ) => {
                result.push(JaPhoneme::Vowel(JaVowel::U));
            },
            EnPhoneme::Space => {
                result.push(JaPhoneme::Space);
            },
            _ => {},
        }
        proof {
            let (emit, p2) = translit_step(prev0, cur, next_g, last_is_a(out0));
            assert(prev == p2);
            assert(result@ =~= out0 + emit + augment(cur));
        }
        idx += 1;
    }
    proof {
        lemma_transliterate_pairing(phonemes@);
    }
    result
}

/// Whether the unit last pushed to the output is the vowel A.
fn last_unit_is_a(units: &Vec<JaPhoneme>) -> (b: bool)
    ensures
        b == last_is_a(units@),
{
    if units.len() == 0 {
        false
    } else {
        units[units.len() - 1] == JaPhoneme::Vowel(JaVowel::A)
    }
}

/// The buffer handed to the next position once the current token is dealt
/// with: the token itself if it is a consonant, nothing otherwise.
fn send_to_next(cur: EnPhoneme) -> (r: Option<EnConsonant>)
    ensures
        r == carried(cur),
{
    match cur {
        EnPhoneme::Consonant(k) => Some(k),
        _ => None,
    }
}

/// The glyph of a vowel standing alone.
pub fn vowel_to_string(katakana_vowel: &JaVowel) -> (r: &'static str)
    ensures
        r@ == vowel_chars(*katakana_vowel),
{
    match katakana_vowel {
        JaVowel::A => "ア",
        JaVowel::I => "イ",
        JaVowel::U => "ウ",
        JaVowel::E => "エ",
        JaVowel::O => "オ",
    }
}

/// The renderer's forward pass from position `i` on, with one consonant
/// class possibly buffered and awaiting its vowel.
pub open spec fn render_from(s: Seq<JaPhoneme>, i: int, pending: Option<JaConsonant>) -> Seq<char>
    decreases s.len() - i,
{
    if i < 0 || i >= s.len() {
        Seq::empty()
    } else {
        match s[i] {
            JaPhoneme::Consonant(c) => if c == JaConsonant::Nn {
                "ン"@ + render_from(s, i + 1, pending)
            } else if c == JaConsonant::Long {
                "ー"@ + render_from(s, i + 1, pending)
            } else {
                render_from(s, i + 1, Some(c))
            },
            JaPhoneme::Vowel(v) => (match pending {
                Some(c) => mora_chars(c, v),
                None => vowel_chars(v),
            }) + render_from(s, i + 1, None),
            JaPhoneme::Space => " "@ + render_from(s, i + 1, pending),
        }
    }
}

/// The whole renderer: one forward pass with an empty buffer.
pub open spec fn render_spec(s: Seq<JaPhoneme>) -> Seq<char> {
    render_from(s, 0, None)
}

/// The katakana text of a whole English phoneme sequence.
pub open spec fn to_ja_spec(s: Seq<EnPhoneme>) -> Seq<char> {
    render_spec(translit_spec(s))
}

/// The renderer: buffers each plain consonant class, pairs it with the
/// vowel that follows through the mora table, writes the mora nasal, the
/// length mark and bare vowels directly, and turns each word boundary into
/// a space.  Well-formed input keeps every lookup inside the table.
pub fn render(phonemes: &[JaPhoneme]) -> (r: String)
    requires
        wf_units(phonemes@),
    ensures
        r@ == render_spec(phonemes@),
{
    let n = phonemes.len();
    let mut string = String::new();
    let mut prevc: Option<JaConsonant> = None;
    let mut i: usize = 0;
    while i < n
        invariant
            i <= n,
            n == phonemes@.len(),
            wf_units(phonemes@),
            match prevc {
                Some(c) => i >= 1 && phonemes@[i - 1] == JaPhoneme::Consonant(c)
                    && is_plain_consonant(phonemes@[i - 1]),
                None => true,
            },
            render_spec(phonemes@) == string@ + render_from(phonemes@, i as int, prevc),
        decreases n - i,
    {
        let ghost str0 = string@;
        let ghost prev0 = prevc;
        match phonemes[i] {
            JaPhoneme::Consonant(JaConsonant::Nn) => string.append("ン"),
            JaPhoneme::Consonant(JaConsonant::Long) => string.append("ー"),
            JaPhoneme::Consonant(c) => {
                prevc = Some(c);
            },
            JaPhoneme::Vowel(v) => {
                match prevc {
                    Some(c) => string.append(to_mora(&c, &v)),
                    None => string.append(vowel_to_string(&v)),
                }
                prevc = None;
            },
            JaPhoneme::Space => string.append(" "),
        }
        proof {
            let rest = render_from(phonemes@, i + 1, prevc);
            assert(str0 + render_from(phonemes@, i as int, prev0) =~= string@ + rest);
        }
        i += 1;
    }
    proof {
        assert(string@ + render_from(phonemes@, n as int, prevc) =~= string@);
    }
    string
}

/// Turns a preprocessed English phoneme sequence into katakana text:
/// the transliterator's pass followed by the renderer's.
pub fn to_ja(phonemes: &[EnPhoneme]) -> (r: String)
    ensures
        r@ == to_ja_spec(phonemes@),
{
    let units = transliterate(phonemes);
    render(units.as_slice())
}

} // verus!
