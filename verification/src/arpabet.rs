//! The English side of the phoneme model: ARPAbet-style symbols.
//!
//! A phoneme token is either one of 24 consonant symbols, or one of 15
//! two-letter vowel codes followed by an optional stress digit.  Parsing is
//! case-sensitive; a token whose leading letters match neither alphabet is
//! rejected with [`ParseError`].

use vstd::prelude::*;

verus! {

/// One element of an English phoneme sequence.
///
/// `Space` separates dictionary words inside a processed sentence;
/// `Tombstone` marks an element deleted by the preprocessor and never
/// survives the preprocessor's purge step.
#[derive(PartialEq, Eq, Clone, Copy, Debug, Structural)]
pub enum EnPhoneme {
    Vowel(EnVowel, Accent),
    Consonant(EnConsonant),
    Space,
    Tombstone,
}

/// The fixed 15-member alphabet of English vowel classes.
#[derive(PartialEq, Eq, Clone, Copy, Debug, Structural)]
pub enum EnVowel {
    AA,
    AE,
    AH,
    AO,
    AW,
    AY,
    EH,
    ER,
    EY,
    IH,
    IY,
    OW,
    OY,
    UH,
    UW,
}

/// The fixed 24-member alphabet of English consonant classes.
#[derive(PartialEq, Eq, Clone, Copy, Debug, Structural)]
pub enum EnConsonant {
    B,
    CH,
    D,
    DH,
    F,
    G,
    HH,
    JH,
    K,
    L,
    M,
    N,
    NG,
    P,
    R,
    S,
    SH,
    T,
    TH,
    V,
    W,
    Y,
    Z,
    ZH,
}

/// Stress accent carried on a vowel, parsed from a trailing digit.
///
/// A trailing `0`, `1` or `2` gives `Unstressed`, `Primary` or `Secondary`;
/// any other tail (including none) gives `Unspecified`.
#[derive(PartialEq, Eq, Clone, Copy, Debug, Structural)]
pub enum Accent {
    Unstressed,
    Primary,
    Secondary,
    Unspecified,
}

/// The error returned when a phoneme token matches neither the consonant
/// nor the vowel grammar.
#[derive(PartialEq, Eq, Clone, Copy, Debug, Structural)]
pub struct ParseError;

/// The single-character consonant symbols.
pub open spec fn consonant_code1(c: char) -> Option<EnConsonant> {
    if c == 'B' {
        Some(EnConsonant::B)
    } else if c == 'D' {
        Some(EnConsonant::D)
    } else if c == 'F' {
        Some(EnConsonant::F)
    } else if c == 'G' {
        Some(EnConsonant::G)
    } else if c == 'K' {
        Some(EnConsonant::K)
    } else if c == 'L' {
        Some(EnConsonant::L)
    } else if c == 'M' {
        Some(EnConsonant::M)
    } else if c == 'N' {
        Some(EnConsonant::N)
    } else if c == 'P' {
        Some(EnConsonant::P)
    } else if c == 'R' {
        Some(EnConsonant::R)
    } else if c == 'S' {
        Some(EnConsonant::S)
    } else if c == 'T' {
        Some(EnConsonant::T)
    } else if c == 'V' {
        Some(EnConsonant::V)
    } else if c == 'W' {
        Some(EnConsonant::W)
    } else if c == 'Y' {
        Some(EnConsonant::Y)
    } else if c == 'Z' {
        Some(EnConsonant::Z)
    } else {
        None
    }
}

/// The two-character consonant symbols.
pub open spec fn consonant_code2(c0: char, c1: char) -> Option<EnConsonant> {
    if c0 == 'C' && c1 == 'H' {
        Some(EnConsonant::CH)
    } else if c0 == 'D' && c1 == 'H' {
        Some(EnConsonant::DH)
    } else if c0 == 'H' && c1 == 'H' {
        Some(EnConsonant::HH)
    } else if c0 == 'J' && c1 == 'H' {
        Some(EnConsonant::JH)
    } else if c0 == 'N' && c1 == 'G' {
        Some(EnConsonant::NG)
    } else if c0 == 'S' && c1 == 'H' {
        Some(EnConsonant::SH)
    } else if c0 == 'T' && c1 == 'H' {
        Some(EnConsonant::TH)
    } else if c0 == 'Z' && c1 == 'H' {
        Some(EnConsonant::ZH)
    } else {
        None
    }
}

/// The two-letter vowel codes.
pub open spec fn vowel_code(c0: char, c1: char) -> Option<EnVowel> {
    if c0 == 'A' && c1 == 'A' {
        Some(EnVowel::AA)
    } else if c0 == 'A' && c1 == 'E' {
        Some(EnVowel::AE)
    } else if c0 == 'A' && c1 == 'H' {
        Some(EnVowel::AH)
    } else if c0 == 'A' && c1 == 'O' {
        Some(EnVowel::AO)
    } else if c0 == 'A' && c1 == 'W' {
        Some(EnVowel::AW)
    } else if c0 == 'A' && c1 == 'Y' {
        Some(EnVowel::AY)
    } else if c0 == 'E' && c1 == 'H' {
        Some(EnVowel::EH)
    } else if c0 == 'E' && c1 == 'R' {
        Some(EnVowel::ER)
    } else if c0 == 'E' && c1 == 'Y' {
        Some(EnVowel::EY)
    } else if c0 == 'I' && c1 == 'H' {
        Some(EnVowel::IH)
    } else if c0 == 'I' && c1 == 'Y' {
        Some(EnVowel::IY)
    } else if c0 == 'O' && c1 == 'W' {
        Some(EnVowel::OW)
    } else if c0 == 'O' && c1 == 'Y' {
        Some(EnVowel::OY)
    } else if c0 == 'U' && c1 == 'H' {
        Some(EnVowel::UH)
    } else if c0 == 'U' && c1 == 'W' {
        Some(EnVowel::UW)
    } else {
        None
    }
}

/// The stress accent encoded by the characters after a vowel code: exactly
/// one trailing digit `0`, `1` or `2` names an accent, any other tail means
/// the accent was left unspecified.
pub open spec fn accent_of(s: Seq<char>) -> Accent {
    if s.len() == 3 && s[2] == '0' {
        Accent::Unstressed
    } else if s.len() == 3 && s[2] == '1' {
        Accent::Primary
    } else if s.len() == 3 && s[2] == '2' {
        Accent::Secondary
    } else {
        Accent::Unspecified
    }
}

/// The vowel reading of a token: its first two letters must be a vowel code,
/// the rest encodes the accent.
pub open spec fn vowel_reading(s: Seq<char>) -> Option<EnPhoneme>
    recommends
        s.len() >= 2,
{
    match vowel_code(s[0], s[1]) {
        Some(v) => Some(EnPhoneme::Vowel(v, accent_of(s))),
        None => None,
    }
}

/// What a phoneme token denotes: a consonant symbol matched whole, else a
/// vowel code with its trailing accent, else nothing.
pub open spec fn parse_phoneme(s: Seq<char>) -> Option<EnPhoneme> {
    if s.len() == 1 {
        match consonant_code1(s[0]) {
            Some(c) => Some(EnPhoneme::Consonant(c)),
            None => None,
        }
    } else if s.len() == 2 {
        match consonant_code2(s[0], s[1]) {
            Some(c) => Some(EnPhoneme::Consonant(c)),
            None => vowel_reading(s),
        }
    } else if s.len() >= 3 {
        vowel_reading(s)
    } else {
        None
    }
}

impl EnPhoneme {
    /// Parses one phoneme token, case-sensitively: one of the 24 consonant
    /// symbols, or a two-letter vowel code followed by an optional stress
    /// digit.  Fails exactly when the token fits neither grammar.
    pub fn from_str(s: &str) -> (r: Result<EnPhoneme, ParseError>)
        ensures
            match parse_phoneme(s@) {
                Some(p) => r == Ok::<EnPhoneme, ParseError>(p),
                None => r == Err::<EnPhoneme, ParseError>(ParseError),
            },
    {
        let n = s.unicode_len();
        if n == 0 {
            return Err(ParseError);
        }
        let c0 = s.get_char(0);
        if n == 1 {
            return match consonant1(c0) {
                Some(c) => Ok(EnPhoneme::Consonant(c)),
                None => Err(ParseError),
            };
        }
        let c1 = s.get_char(1);
        if n == 2 {
            if let Some(c) = consonant2(c0, c1) {
                return Ok(EnPhoneme::Consonant(c));
            }
        }
        match vowel2(c0, c1) {
            Some(v) => {
                let accent = if n == 3 {
                    match s.get_char(2) {
                        '0' => Accent::Unstressed,
                        '1' => Accent::Primary,
                        '2' => Accent::Secondary,
                        _ => Accent::Unspecified,
                    }
                } else {
                    Accent::Unspecified
                };
                Ok(EnPhoneme::Vowel(v, accent))
            },
            None => Err(ParseError),
        }
    }
}

/// Matches a whole token of one character against the consonant alphabet.
fn consonant1(c: char) -> (r: Option<EnConsonant>)
    ensures
        r == consonant_code1(c),
{
    match c {
        'B' => Some(EnConsonant::B),
        'D' => Some(EnConsonant::D),
        'F' => Some(EnConsonant::F),
        'G' => Some(EnConsonant::G),
        'K' => Some(EnConsonant::K),
        'L' => Some(EnConsonant::L),
        'M' => Some(EnConsonant::M),
        'N' => Some(EnConsonant::N),
        'P' => Some(EnConsonant::P),
        'R' => Some(EnConsonant::R),
        'S' => Some(EnConsonant::S),
        'T' => Some(EnConsonant::T),
        'V' => Some(EnConsonant::V),
        'W' => Some(EnConsonant::W),
        'Y' => Some(EnConsonant::Y),
        'Z' => Some(EnConsonant::Z),
        _ => None,
    }
}

/// Matches a whole token of two characters against the consonant alphabet.
fn consonant2(c0: char, c1: char) -> (r: Option<EnConsonant>)
    ensures
        r == consonant_code2(c0, c1),
{
    if c1 == 'H' {
        match c0 {
            'C' => Some(EnConsonant::CH),
            'D' => Some(EnConsonant::DH),
            'H' => Some(EnConsonant::HH),
            'J' => Some(EnConsonant::JH),
            'S' => Some(EnConsonant::SH),
            'T' => Some(EnConsonant::TH),
            'Z' => Some(EnConsonant::ZH),
            _ => None,
        }
    } else if c0 == 'N' && c1 == 'G' {
        Some(EnConsonant::NG)
    } else {
        None
    }
}

/// Matches the leading two letters of a token against the vowel alphabet.
fn vowel2(c0: char, c1: char) -> (r: Option<EnVowel>)
    ensures
        r == vowel_code(c0, c1),
{
    match c0 {
        'A' => match c1 {
            'A' => Some(EnVowel::AA),
            'E' => Some(EnVowel::AE),
            'H' => Some(EnVowel::AH),
            'O' => Some(EnVowel::AO),
            'W' => Some(EnVowel::AW),
            'Y' => Some(EnVowel::AY),
            _ => None,
        },
        'E' => match c1 {
            'H' => Some(EnVowel::EH),
            'R' => Some(EnVowel::ER),
            'Y' => Some(EnVowel::EY),
            _ => None,
        },
        'I' => match c1 {
            'H' => Some(EnVowel::IH),
            'Y' => Some(EnVowel::IY),
            _ => None,
        },
        'O' => match c1 {
            'W' => Some(EnVowel::OW),
            'Y' => Some(EnVowel::OY),
            _ => None,
        },
        'U' => match c1 {
            'H' => Some(EnVowel::UH),
            'W' => Some(EnVowel::UW),
            _ => None,
        },
        _ => None,
    }
}

} // verus!
