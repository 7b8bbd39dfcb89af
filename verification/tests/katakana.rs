use katakana_eigo::arpabet::{Accent, EnConsonant, EnPhoneme, EnVowel, ParseError};
use katakana_eigo::jp_phoneme::{
    katakana_consonant, katakana_vowel, render, to_ja, to_mora, transliterate, vowel_to_string,
    JaConsonant, JaPhoneme, JaVowel,
};
use katakana_eigo::prep::preprocess;
use katakana_eigo::KatakanaEigo;

fn vowel(v: EnVowel) -> EnPhoneme {
    EnPhoneme::Vowel(v, Accent::Primary)
}

fn cons(c: EnConsonant) -> EnPhoneme {
    EnPhoneme::Consonant(c)
}

#[test]
fn parse_single_letter_consonant() {
    assert_eq!(
        EnPhoneme::from_str("B"),
        Ok(EnPhoneme::Consonant(EnConsonant::B))
    );
    assert_eq!(
        EnPhoneme::from_str("Z"),
        Ok(EnPhoneme::Consonant(EnConsonant::Z))
    );
}

#[test]
fn parse_two_letter_consonant() {
    assert_eq!(
        EnPhoneme::from_str("CH"),
        Ok(EnPhoneme::Consonant(EnConsonant::CH))
    );
    assert_eq!(
        EnPhoneme::from_str("NG"),
        Ok(EnPhoneme::Consonant(EnConsonant::NG))
    );
    assert_eq!(
        EnPhoneme::from_str("ZH"),
        Ok(EnPhoneme::Consonant(EnConsonant::ZH))
    );
}

#[test]
fn parse_vowel_with_stress_digits() {
    assert_eq!(
        EnPhoneme::from_str("AA0"),
        Ok(EnPhoneme::Vowel(EnVowel::AA, Accent::Unstressed))
    );
    assert_eq!(
        EnPhoneme::from_str("AA1"),
        Ok(EnPhoneme::Vowel(EnVowel::AA, Accent::Primary))
    );
    assert_eq!(
        EnPhoneme::from_str("UW2"),
        Ok(EnPhoneme::Vowel(EnVowel::UW, Accent::Secondary))
    );
}

#[test]
fn parse_vowel_without_digit_is_unspecified() {
    assert_eq!(
        EnPhoneme::from_str("AH"),
        Ok(EnPhoneme::Vowel(EnVowel::AH, Accent::Unspecified))
    );
    assert_eq!(
        EnPhoneme::from_str("OY"),
        Ok(EnPhoneme::Vowel(EnVowel::OY, Accent::Unspecified))
    );
}

#[test]
fn parse_vowel_with_strange_tail_is_unspecified() {
    assert_eq!(
        EnPhoneme::from_str("AA3"),
        Ok(EnPhoneme::Vowel(EnVowel::AA, Accent::Unspecified))
    );
    assert_eq!(
        EnPhoneme::from_str("AA12"),
        Ok(EnPhoneme::Vowel(EnVowel::AA, Accent::Unspecified))
    );
}

#[test]
fn parse_accepts_every_consonant_symbol() {
    let symbols = [
        ("B", EnConsonant::B),
        ("CH", EnConsonant::CH),
        ("D", EnConsonant::D),
        ("DH", EnConsonant::DH),
        ("F", EnConsonant::F),
        ("G", EnConsonant::G),
        ("HH", EnConsonant::HH),
        ("JH", EnConsonant::JH),
        ("K", EnConsonant::K),
        ("L", EnConsonant::L),
        ("M", EnConsonant::M),
        ("N", EnConsonant::N),
        ("NG", EnConsonant::NG),
        ("P", EnConsonant::P),
        ("R", EnConsonant::R),
        ("S", EnConsonant::S),
        ("SH", EnConsonant::SH),
        ("T", EnConsonant::T),
        ("TH", EnConsonant::TH),
        ("V", EnConsonant::V),
        ("W", EnConsonant::W),
        ("Y", EnConsonant::Y),
        ("Z", EnConsonant::Z),
        ("ZH", EnConsonant::ZH),
    ];
    for (token, class) in symbols {
        assert_eq!(EnPhoneme::from_str(token), Ok(EnPhoneme::Consonant(class)));
    }
}

#[test]
fn parse_accepts_every_vowel_code() {
    let codes = [
        ("AA", EnVowel::AA),
        ("AE", EnVowel::AE),
        ("AH", EnVowel::AH),
        ("AO", EnVowel::AO),
        ("AW", EnVowel::AW),
        ("AY", EnVowel::AY),
        ("EH", EnVowel::EH),
        ("ER", EnVowel::ER),
        ("EY", EnVowel::EY),
        ("IH", EnVowel::IH),
        ("IY", EnVowel::IY),
        ("OW", EnVowel::OW),
        ("OY", EnVowel::OY),
        ("UH", EnVowel::UH),
        ("UW", EnVowel::UW),
    ];
    for (code, class) in codes {
        let token = format!("{}1", code);
        assert_eq!(
            EnPhoneme::from_str(&token),
            Ok(EnPhoneme::Vowel(class, Accent::Primary))
        );
    }
}

#[test]
fn parse_rejects_unknown_tokens() {
    assert_eq!(EnPhoneme::from_str(""), Err(ParseError));
    assert_eq!(EnPhoneme::from_str("A"), Err(ParseError));
    assert_eq!(EnPhoneme::from_str("Q"), Err(ParseError));
    assert_eq!(EnPhoneme::from_str("QQ"), Err(ParseError));
    assert_eq!(EnPhoneme::from_str("XX1"), Err(ParseError));
    assert_eq!(EnPhoneme::from_str("b"), Err(ParseError));
}

#[test]
fn preprocess_degemination_across_boundary() {
    let mut phonemes = vec![vowel(EnVowel::AA), EnPhoneme::Space, vowel(EnVowel::AA)];
    preprocess(&mut phonemes);
    assert_eq!(phonemes, vec![EnPhoneme::Space, vowel(EnVowel::AA)]);
}

#[test]
fn preprocess_degemination_needs_equal_accent() {
    let mut phonemes = vec![
        EnPhoneme::Vowel(EnVowel::AA, Accent::Primary),
        EnPhoneme::Space,
        EnPhoneme::Vowel(EnVowel::AA, Accent::Secondary),
    ];
    let unchanged = phonemes.clone();
    preprocess(&mut phonemes);
    assert_eq!(phonemes, unchanged);
}

#[test]
fn preprocess_flapping_before_boundary() {
    let mut phonemes = vec![
        vowel(EnVowel::EH),
        cons(EnConsonant::T),
        EnPhoneme::Space,
        vowel(EnVowel::AH),
    ];
    preprocess(&mut phonemes);
    assert_eq!(
        phonemes,
        vec![
            vowel(EnVowel::EH),
            cons(EnConsonant::L),
            vowel(EnVowel::AH),
        ]
    );
}

#[test]
fn preprocess_leaves_plain_word_alone() {
    let mut phonemes = vec![
        cons(EnConsonant::D),
        vowel(EnVowel::AO),
        cons(EnConsonant::G),
        EnPhoneme::Space,
    ];
    let unchanged = phonemes.clone();
    preprocess(&mut phonemes);
    assert_eq!(phonemes, unchanged);
}

#[test]
fn preprocess_output_has_no_tombstone() {
    let mut phonemes = vec![
        vowel(EnVowel::AA),
        EnPhoneme::Space,
        vowel(EnVowel::AA),
        cons(EnConsonant::T),
        EnPhoneme::Space,
        vowel(EnVowel::IY),
    ];
    preprocess(&mut phonemes);
    assert!(phonemes.iter().all(|p| *p != EnPhoneme::Tombstone));
}

#[test]
fn preprocess_second_run_is_stable_on_reduced_output() {
    let mut phonemes = vec![
        vowel(EnVowel::EH),
        cons(EnConsonant::T),
        EnPhoneme::Space,
        vowel(EnVowel::AH),
        EnPhoneme::Space,
    ];
    preprocess(&mut phonemes);
    let once = phonemes.clone();
    preprocess(&mut phonemes);
    assert_eq!(phonemes, once);
}

#[test]
fn transliterate_dog_scenario() {
    let phonemes = vec![
        cons(EnConsonant::D),
        vowel(EnVowel::AO),
        cons(EnConsonant::G),
        EnPhoneme::Space,
    ];
    let units = transliterate(&phonemes);
    assert_eq!(
        units,
        vec![
            JaPhoneme::Consonant(JaConsonant::D),
            JaPhoneme::Vowel(JaVowel::A),
            JaPhoneme::Consonant(JaConsonant::G),
            JaPhoneme::Vowel(JaVowel::U),
            JaPhoneme::Space,
        ]
    );
}

#[test]
fn transliterate_the_scenario() {
    let phonemes = vec![
        cons(EnConsonant::DH),
        EnPhoneme::Vowel(EnVowel::AH, Accent::Unspecified),
        EnPhoneme::Space,
    ];
    let units = transliterate(&phonemes);
    assert_eq!(
        units,
        vec![
            JaPhoneme::Consonant(JaConsonant::Dy),
            JaPhoneme::Vowel(JaVowel::A),
            JaPhoneme::Space,
        ]
    );
}

#[test]
fn transliterate_final_ts_contracts() {
    // A word ending in ...T S right before the boundary: one Ts+U mora,
    // not a T mora and an S mora.
    let phonemes = vec![
        cons(EnConsonant::K),
        vowel(EnVowel::AE),
        cons(EnConsonant::T),
        cons(EnConsonant::S),
        EnPhoneme::Space,
    ];
    let units = transliterate(&phonemes);
    assert_eq!(
        units,
        vec![
            JaPhoneme::Consonant(JaConsonant::K),
            JaPhoneme::Vowel(JaVowel::A),
            JaPhoneme::Consonant(JaConsonant::Ts),
            JaPhoneme::Vowel(JaVowel::U),
            JaPhoneme::Space,
        ]
    );
}

#[test]
fn transliterate_final_dz_contracts() {
    let phonemes = vec![
        vowel(EnVowel::AE),
        cons(EnConsonant::D),
        cons(EnConsonant::Z),
        EnPhoneme::Space,
    ];
    let units = transliterate(&phonemes);
    assert_eq!(
        units,
        vec![
            JaPhoneme::Vowel(JaVowel::A),
            JaPhoneme::Consonant(JaConsonant::Z),
            JaPhoneme::Vowel(JaVowel::U),
            JaPhoneme::Space,
        ]
    );
}

#[test]
fn transliterate_nasal_assimilation() {
    // An /n/ buffered before another consonant becomes the mora nasal,
    // never a consonant+vowel pair.
    let phonemes = vec![
        cons(EnConsonant::P),
        vowel(EnVowel::EH),
        cons(EnConsonant::N),
        cons(EnConsonant::K),
        vowel(EnVowel::AE),
        EnPhoneme::Space,
    ];
    let units = transliterate(&phonemes);
    assert_eq!(
        units,
        vec![
            JaPhoneme::Consonant(JaConsonant::P),
            JaPhoneme::Vowel(JaVowel::E),
            JaPhoneme::Consonant(JaConsonant::Nn),
            JaPhoneme::Consonant(JaConsonant::K),
            JaPhoneme::Vowel(JaVowel::A),
            JaPhoneme::Space,
        ]
    );
}

#[test]
fn transliterate_long_mark_after_a_before_r() {
    let phonemes = vec![
        cons(EnConsonant::K),
        vowel(EnVowel::AA),
        cons(EnConsonant::R),
        EnPhoneme::Space,
    ];
    let units = transliterate(&phonemes);
    assert_eq!(
        units,
        vec![
            JaPhoneme::Consonant(JaConsonant::K),
            JaPhoneme::Vowel(JaVowel::A),
            JaPhoneme::Consonant(JaConsonant::Long),
            JaPhoneme::Space,
        ]
    );
}

#[test]
fn transliterate_ng_gets_mora_nasal_prefix() {
    let phonemes = vec![
        cons(EnConsonant::S),
        vowel(EnVowel::AO),
        cons(EnConsonant::NG),
        EnPhoneme::Space,
    ];
    let units = transliterate(&phonemes);
    assert_eq!(
        units,
        vec![
            JaPhoneme::Consonant(JaConsonant::S),
            JaPhoneme::Vowel(JaVowel::A),
            JaPhoneme::Consonant(JaConsonant::Nn),
            JaPhoneme::Consonant(JaConsonant::G),
            JaPhoneme::Vowel(JaVowel::U),
            JaPhoneme::Space,
        ]
    );
}

#[test]
fn transliterate_diphthongs_decompose() {
    let boy = vec![cons(EnConsonant::B), vowel(EnVowel::OY)];
    assert_eq!(
        transliterate(&boy),
        vec![
            JaPhoneme::Consonant(JaConsonant::B),
            JaPhoneme::Vowel(JaVowel::O),
            JaPhoneme::Vowel(JaVowel::I),
        ]
    );
    let cow = vec![cons(EnConsonant::K), vowel(EnVowel::AW)];
    assert_eq!(
        transliterate(&cow),
        vec![
            JaPhoneme::Consonant(JaConsonant::K),
            JaPhoneme::Vowel(JaVowel::A),
            JaPhoneme::Vowel(JaVowel::U),
        ]
    );
}

#[test]
fn transliterate_long_vowels_gain_length_mark() {
    let see = vec![cons(EnConsonant::S), vowel(EnVowel::IY)];
    assert_eq!(
        transliterate(&see),
        vec![
            JaPhoneme::Consonant(JaConsonant::S),
            JaPhoneme::Vowel(JaVowel::I),
            JaPhoneme::Consonant(JaConsonant::Long),
        ]
    );
}

#[test]
fn transliterate_pairing_invariant_holds() {
    // Every plain consonant class unit is immediately followed by a vowel
    // unit; only the mora nasal and the length mark stand alone.
    let phonemes = vec![
        cons(EnConsonant::S),
        cons(EnConsonant::T),
        cons(EnConsonant::R),
        vowel(EnVowel::IY),
        cons(EnConsonant::NG),
        cons(EnConsonant::Z),
        EnPhoneme::Space,
        cons(EnConsonant::K),
        vowel(EnVowel::AA),
        cons(EnConsonant::R),
        EnPhoneme::Space,
    ];
    let units = transliterate(&phonemes);
    for (i, u) in units.iter().enumerate() {
        if let JaPhoneme::Consonant(c) = u {
            if *c != JaConsonant::Nn && *c != JaConsonant::Long {
                assert!(matches!(units[i + 1], JaPhoneme::Vowel(_)));
                if *c == JaConsonant::Ts {
                    assert_eq!(units[i + 1], JaPhoneme::Vowel(JaVowel::U));
                }
            }
        }
    }
}

#[test]
fn mora_table_spot_checks() {
    assert_eq!(to_mora(&JaConsonant::K, &JaVowel::A), "カ");
    assert_eq!(to_mora(&JaConsonant::Sh, &JaVowel::I), "シ");
    assert_eq!(to_mora(&JaConsonant::Ts, &JaVowel::U), "ツ");
    assert_eq!(to_mora(&JaConsonant::D, &JaVowel::O), "ド");
    assert_eq!(to_mora(&JaConsonant::Dy, &JaVowel::A), "ザ");
    assert_eq!(to_mora(&JaConsonant::V, &JaVowel::E), "ヴェ");
    assert_eq!(to_mora(&JaConsonant::Ch, &JaVowel::A), "チャ");
}

#[test]
fn bare_vowel_glyphs() {
    assert_eq!(vowel_to_string(&JaVowel::A), "ア");
    assert_eq!(vowel_to_string(&JaVowel::I), "イ");
    assert_eq!(vowel_to_string(&JaVowel::U), "ウ");
    assert_eq!(vowel_to_string(&JaVowel::E), "エ");
    assert_eq!(vowel_to_string(&JaVowel::O), "オ");
}

#[test]
fn consonant_map_spot_checks() {
    assert_eq!(katakana_consonant(&EnConsonant::L), JaConsonant::R);
    assert_eq!(katakana_consonant(&EnConsonant::TH), JaConsonant::Sh);
    assert_eq!(katakana_consonant(&EnConsonant::DH), JaConsonant::Dy);
    assert_eq!(katakana_consonant(&EnConsonant::NG), JaConsonant::G);
    assert_eq!(katakana_consonant(&EnConsonant::ZH), JaConsonant::J);
    assert_eq!(katakana_consonant(&EnConsonant::HH), JaConsonant::H);
}

#[test]
fn vowel_map_spot_checks() {
    assert_eq!(katakana_vowel(&EnVowel::AO), JaVowel::A);
    assert_eq!(katakana_vowel(&EnVowel::AE), JaVowel::A);
    assert_eq!(katakana_vowel(&EnVowel::ER), JaVowel::A);
    assert_eq!(katakana_vowel(&EnVowel::EY), JaVowel::E);
    assert_eq!(katakana_vowel(&EnVowel::IH), JaVowel::I);
    assert_eq!(katakana_vowel(&EnVowel::OW), JaVowel::O);
    assert_eq!(katakana_vowel(&EnVowel::UH), JaVowel::U);
}

#[test]
fn render_pairs_consonant_with_vowel() {
    let units = vec![
        JaPhoneme::Consonant(JaConsonant::D),
        JaPhoneme::Vowel(JaVowel::A),
        JaPhoneme::Consonant(JaConsonant::G),
        JaPhoneme::Vowel(JaVowel::U),
        JaPhoneme::Space,
    ];
    assert_eq!(render(&units), "ダグ ");
}

#[test]
fn render_bare_vowels_and_marks() {
    let units = vec![
        JaPhoneme::Vowel(JaVowel::A),
        JaPhoneme::Consonant(JaConsonant::Long),
        JaPhoneme::Consonant(JaConsonant::Nn),
        JaPhoneme::Vowel(JaVowel::O),
    ];
    assert_eq!(render(&units), "アーンオ");
}

#[test]
fn to_ja_dog() {
    let phonemes = vec![
        cons(EnConsonant::D),
        vowel(EnVowel::AO),
        cons(EnConsonant::G),
        EnPhoneme::Space,
    ];
    assert_eq!(to_ja(&phonemes), "ダグ ");
}

#[test]
fn to_ja_the() {
    let phonemes = vec![
        cons(EnConsonant::DH),
        EnPhoneme::Vowel(EnVowel::AH, Accent::Unspecified),
        EnPhoneme::Space,
    ];
    assert_eq!(to_ja(&phonemes), "ザ ");
}

fn small_dictionary() -> KatakanaEigo {
    let mut ke = KatakanaEigo::new();
    ke.add_word(
        "DOG".to_string(),
        vec![cons(EnConsonant::D), vowel(EnVowel::AO), cons(EnConsonant::G)],
    );
    ke.add_word(
        "GOD".to_string(),
        vec![cons(EnConsonant::G), vowel(EnVowel::AO), cons(EnConsonant::D)],
    );
    ke.add_word(
        "THE".to_string(),
        vec![
            cons(EnConsonant::DH),
            EnPhoneme::Vowel(EnVowel::AH, Accent::Unspecified),
        ],
    );
    ke.add_word(
        "GET".to_string(),
        vec![cons(EnConsonant::G), vowel(EnVowel::EH), cons(EnConsonant::T)],
    );
    ke.add_word(
        "A".to_string(),
        vec![EnPhoneme::Vowel(EnVowel::AH, Accent::Unstressed)],
    );
    ke
}

#[test]
fn katakanize_single_word() {
    let ke = small_dictionary();
    assert_eq!(ke.katakanize("dog"), "ダグ ");
}

#[test]
fn katakanize_uppercases_before_lookup() {
    let ke = small_dictionary();
    assert_eq!(ke.katakanize("DoG"), "ダグ ");
    assert_eq!(ke.katakanize("THE"), "ザ ");
}

#[test]
fn katakanize_splits_on_spaces_commas_and_periods() {
    let ke = small_dictionary();
    assert_eq!(ke.katakanize("dog dog"), "ダグ ダグ ");
    assert_eq!(ke.katakanize("dog,dog."), "ダグ ダグ ");
}

#[test]
fn katakanize_omits_unknown_words() {
    let ke = small_dictionary();
    assert_eq!(ke.katakanize("dog zebra"), "ダグ ");
    assert_eq!(ke.katakanize("zebra"), "");
    assert_eq!(ke.katakanize(""), "");
}

#[test]
fn katakanize_degeminates_across_words() {
    // DOG ends in the same consonant GOD begins with, so the repeated /g/
    // loses its first copy across the boundary.
    let ke = small_dictionary();
    assert_eq!(ke.katakanize("dog god"), "ダ ガド ");
}

#[test]
fn katakanize_flaps_t_between_vowels_at_boundary() {
    // GET ends vowel-T and A begins with a vowel: the /t/ is heard as an
    // /l/-like flap and the boundary between them disappears.
    let ke = small_dictionary();
    assert_eq!(ke.katakanize("get a"), "ゲラ ");
}

#[test]
fn katakanize_replaced_entry_wins() {
    let mut ke = small_dictionary();
    ke.add_word("DOG".to_string(), vec![cons(EnConsonant::D), vowel(EnVowel::IY)]);
    assert_eq!(ke.katakanize("dog"), "ディー ");
}

#[test]
fn katakanize_is_deterministic() {
    let ke = small_dictionary();
    let first = ke.katakanize("the dog, god");
    let second = ke.katakanize("the dog, god");
    assert_eq!(first, second);
}
