use versioninfo::codes::{CharacterSet, Language};

#[test]
fn language_to_hex_values() {
    assert_eq!(Language::USEnglish.to_hex(), "0409");
    assert_eq!(Language::Arabic.to_hex(), "0401");
    assert_eq!(Language::CroatoSerbianLatin.to_hex(), "041A");
    assert_eq!(Language::CanadianFrench.to_hex(), "0C0C");
    assert_eq!(Language::SwissFrench.to_hex(), "100C");
    assert_eq!(Language::NorwegianBokmal.to_hex(), "041");
    assert_eq!(Language::SwissItalian.to_hex(), "0810");
    assert_eq!(Language::BelgianDutch.to_hex(), "0813");
    assert_eq!(Language::NorwegianNynorsk.to_hex(), "0814");
}

#[test]
fn character_set_codes() {
    assert_eq!(CharacterSet::ASCII7bit.to_hex(), "0000");
    assert_eq!(CharacterSet::ASCII7bit.to_decimal(), "0");
    assert_eq!(CharacterSet::Multilingual.to_hex(), "04E4");
    assert_eq!(CharacterSet::Multilingual.to_decimal(), "1252");
    assert_eq!(CharacterSet::Unicode.to_hex(), "04B0");
    assert_eq!(CharacterSet::Unicode.to_decimal(), "1200");
    assert_eq!(CharacterSet::JapanShiftJISX0208.to_decimal(), "932");
}

#[test]
fn code_page_hex_and_decimal_agree() {
    let all = vec![
        CharacterSet::ASCII7bit,
        CharacterSet::JapanShiftJISX0208,
        CharacterSet::KoreaShiftKSC5601,
        CharacterSet::TaiwanBig5,
        CharacterSet::Unicode,
        CharacterSet::Latin2EasternEuropean,
        CharacterSet::Cyrillic,
        CharacterSet::Multilingual,
        CharacterSet::Greek,
        CharacterSet::Turkish,
        CharacterSet::Hebrew,
        CharacterSet::Arabic,
    ];
    for cs in all {
        let hex = cs.to_hex();
        assert_eq!(hex.len(), 4);
        let from_hex = u32::from_str_radix(&hex, 16).unwrap();
        let from_dec: u32 = cs.to_decimal().parse().unwrap();
        assert_eq!(from_hex, from_dec);
    }
}

#[test]
fn language_codes_are_distinct_hex() {
    let all = vec![
        (Language::Arabic, false),
        (Language::Polish, false),
        (Language::Bulgarian, false),
        (Language::PortugueseBrazil, false),
        (Language::Catalan, false),
        (Language::RhaetoRomanic, false),
        (Language::TraditionalChinese, false),
        (Language::Romanian, false),
        (Language::Czech, false),
        (Language::Russian, false),
        (Language::Danish, false),
        (Language::CroatoSerbianLatin, false),
        (Language::German, false),
        (Language::Slovak, false),
        (Language::Greek, false),
        (Language::Albanian, false),
        (Language::USEnglish, false),
        (Language::Swedish, false),
        (Language::CastilianSpanish, false),
        (Language::Thai, false),
        (Language::Finnish, false),
        (Language::Turkish, false),
        (Language::French, false),
        (Language::Urdu, false),
        (Language::Hebrew, false),
        (Language::Bahasa, false),
        (Language::Hungarian, false),
        (Language::SimplifiedChinese, false),
        (Language::Icelandic, false),
        (Language::SwissGerman, false),
        (Language::Italian, false),
        (Language::UKEnglish, false),
        (Language::Japanese, false),
        (Language::SpanishMexico, false),
        (Language::Korean, false),
        (Language::BelgianFrench, false),
        (Language::Dutch, false),
        (Language::CanadianFrench, false),
        (Language::NorwegianBokmal, true),
        (Language::SwissFrench, false),
        (Language::SwissItalian, false),
        (Language::PortuguesePortugal, false),
        (Language::BelgianDutch, false),
        (Language::SerboCyrillicCroatian, false),
        (Language::NorwegianNynorsk, false),
    ];
    let mut seen = std::collections::HashSet::new();
    for (l, short) in all {
        let code = l.to_hex();
        assert_eq!(code.len(), if short { 3 } else { 4 });
        assert!(code.chars().all(|c| matches!(c, '0'..='9' | 'A'..='F')));
        assert!(seen.insert(code));
    }
    assert_eq!(seen.len(), 45);
}
