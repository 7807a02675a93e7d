use vstd::prelude::*;

use crate::decimal::digits_value;

verus! {

/// The language of a `FileInfo` block.
pub enum Language {
    Arabic,
    Polish,
    Bulgarian,
    PortugueseBrazil,
    Catalan,
    RhaetoRomanic,
    TraditionalChinese,
    Romanian,
    Czech,
    Russian,
    Danish,
    CroatoSerbianLatin,
    German,
    Slovak,
    Greek,
    Albanian,
    USEnglish,
    Swedish,
    CastilianSpanish,
    Thai,
    Finnish,
    Turkish,
    French,
    Urdu,
    Hebrew,
    Bahasa,
    Hungarian,
    SimplifiedChinese,
    Icelandic,
    SwissGerman,
    Italian,
    UKEnglish,
    Japanese,
    SpanishMexico,
    Korean,
    BelgianFrench,
    Dutch,
    CanadianFrench,
    NorwegianBokmal,
    SwissFrench,
    SwissItalian,
    PortuguesePortugal,
    BelgianDutch,
    SerboCyrillicCroatian,
    NorwegianNynorsk,
}

impl Language {
    /// The language identifier as it is written in the resource script.
    pub open spec fn hex_code(self) -> Seq<char> {
        match self {
            Language::Arabic => "0401"@,
            Language::Polish => "0415"@,
            Language::Bulgarian => "0402"@,
            Language::PortugueseBrazil => "0416"@,
            Language::Catalan => "0403"@,
            Language::RhaetoRomanic => "0417"@,
            Language::TraditionalChinese => "0404"@,
            Language::Romanian => "0418"@,
            Language::Czech => "0405"@,
            Language::Russian => "0419"@,
            Language::Danish => "0406"@,
            Language::CroatoSerbianLatin => "041A"@,
            Language::German => "0407"@,
            Language::Slovak => "041B"@,
            Language::Greek => "0408"@,
            Language::Albanian => "041C"@,
            Language::USEnglish => "0409"@,
            Language::Swedish => "041D"@,
            Language::CastilianSpanish => "040A"@,
            Language::Thai => "041E"@,
            Language::Finnish => "040B"@,
            Language::Turkish => "041F"@,
            Language::French => "040C"@,
            Language::Urdu => "0420"@,
            Language::Hebrew => "040D"@,
            Language::Bahasa => "0421"@,
            Language::Hungarian => "040E"@,
            Language::SimplifiedChinese => "0804"@,
            Language::Icelandic => "040F"@,
            Language::SwissGerman => "0807"@,
            Language::Italian => "0410"@,
            Language::UKEnglish => "0809"@,
            Language::Japanese => "0411"@,
            Language::SpanishMexico => "080A"@,
            Language::Korean => "0412"@,
            Language::BelgianFrench => "080C"@,
            Language::Dutch => "0413"@,
            Language::CanadianFrench => "0C0C"@,
            Language::NorwegianBokmal => "041"@,
            Language::SwissFrench => "100C"@,
            Language::SwissItalian => "0810"@,
            Language::PortuguesePortugal => "0816"@,
            Language::BelgianDutch => "0813"@,
            Language::SerboCyrillicCroatian => "081A"@,
            Language::NorwegianNynorsk => "0814"@,
        }
    }

    /// The language identifier as a string slice.
    pub fn hex_str(&self) -> (res: &'static str)
        ensures
            res@ == self.hex_code(),
    {
        match self {
            Language::Arabic => "0401",
            Language::Polish => "0415",
            Language::Bulgarian => "0402",
            Language::PortugueseBrazil => "0416",
            Language::Catalan => "0403",
            Language::RhaetoRomanic => "0417",
            Language::TraditionalChinese => "0404",
            Language::Romanian => "0418",
            Language::Czech => "0405",
            Language::Russian => "0419",
            Language::Danish => "0406",
            Language::CroatoSerbianLatin => "041A",
            Language::German => "0407",
            Language::Slovak => "041B",
            Language::Greek => "0408",
            Language::Albanian => "041C",
            Language::USEnglish => "0409",
            Language::Swedish => "041D",
            Language::CastilianSpanish => "040A",
            Language::Thai => "041E",
            Language::Finnish => "040B",
            Language::Turkish => "041F",
            Language::French => "040C",
            Language::Urdu => "0420",
            Language::Hebrew => "040D",
            Language::Bahasa => "0421",
            Language::Hungarian => "040E",
            Language::SimplifiedChinese => "0804",
            Language::Icelandic => "040F",
            Language::SwissGerman => "0807",
            Language::Italian => "0410",
            Language::UKEnglish => "0809",
            Language::Japanese => "0411",
            Language::SpanishMexico => "080A",
            Language::Korean => "0412",
            Language::BelgianFrench => "080C",
            Language::Dutch => "0413",
            Language::CanadianFrench => "0C0C",
            Language::NorwegianBokmal => "041",
            Language::SwissFrench => "100C",
            Language::SwissItalian => "0810",
            Language::PortuguesePortugal => "0816",
            Language::BelgianDutch => "0813",
            Language::SerboCyrillicCroatian => "081A",
            Language::NorwegianNynorsk => "0814",
        }
    }

    /// The language identifier, in hexadecimal, as it is written in the resource script.
    pub fn to_hex(&self) -> (res: String)
        ensures
            res@ == self.hex_code(),
    {
        String::from_str(self.hex_str())
    }
}

/// The character set of a `FileInfo` block.
pub enum CharacterSet {
    ASCII7bit,
    JapanShiftJISX0208,
    KoreaShiftKSC5601,
    TaiwanBig5,
    Unicode,
    Latin2EasternEuropean,
    Cyrillic,
    Multilingual,
    Greek,
    Turkish,
    Hebrew,
    Arabic,
}

impl CharacterSet {
    /// The code page in hexadecimal, four digits.
    pub open spec fn hex_code(self) -> Seq<char> {
        match self {
            CharacterSet::ASCII7bit => "0000"@,
            CharacterSet::JapanShiftJISX0208 => "03A4"@,
            CharacterSet::KoreaShiftKSC5601 => "03B5"@,
            CharacterSet::TaiwanBig5 => "03B6"@,
            CharacterSet::Unicode => "04B0"@,
            CharacterSet::Latin2EasternEuropean => "04E2"@,
            CharacterSet::Cyrillic => "04E3"@,
            CharacterSet::Multilingual => "04E4"@,
            CharacterSet::Greek => "04E5"@,
            CharacterSet::Turkish => "04E6"@,
            CharacterSet::Hebrew => "04E7"@,
            CharacterSet::Arabic => "04E8"@,
        }
    }

    /// The code page in decimal.
    pub open spec fn decimal_code(self) -> Seq<char> {
        match self {
            CharacterSet::ASCII7bit => "0"@,
            CharacterSet::JapanShiftJISX0208 => "932"@,
            CharacterSet::KoreaShiftKSC5601 => "949"@,
            CharacterSet::TaiwanBig5 => "950"@,
            CharacterSet::Unicode => "1200"@,
            CharacterSet::Latin2EasternEuropean => "1250"@,
            CharacterSet::Cyrillic => "1251"@,
            CharacterSet::Multilingual => "1252"@,
            CharacterSet::Greek => "1253"@,
            CharacterSet::Turkish => "1254"@,
            CharacterSet::Hebrew => "1255"@,
            CharacterSet::Arabic => "1256"@,
        }
    }

    /// The code page in hexadecimal as a string slice.
    pub fn hex_str(&self) -> (res: &'static str)
        ensures
            res@ == self.hex_code(),
    {
        match self {
            CharacterSet::ASCII7bit => "0000",
            CharacterSet::JapanShiftJISX0208 => "03A4",
            CharacterSet::KoreaShiftKSC5601 => "03B5",
            CharacterSet::TaiwanBig5 => "03B6",
            CharacterSet::Unicode => "04B0",
            CharacterSet::Latin2EasternEuropean => "04E2",
            CharacterSet::Cyrillic => "04E3",
            CharacterSet::Multilingual => "04E4",
            CharacterSet::Greek => "04E5",
            CharacterSet::Turkish => "04E6",
            CharacterSet::Hebrew => "04E7",
            CharacterSet::Arabic => "04E8",
        }
    }

    /// The code page in decimal as a string slice.
    pub fn decimal_str(&self) -> (res: &'static str)
        ensures
            res@ == self.decimal_code(),
    {
        match self {
            CharacterSet::ASCII7bit => "0",
            CharacterSet::JapanShiftJISX0208 => "932",
            CharacterSet::KoreaShiftKSC5601 => "949",
            CharacterSet::TaiwanBig5 => "950",
            CharacterSet::Unicode => "1200",
            CharacterSet::Latin2EasternEuropean => "1250",
            CharacterSet::Cyrillic => "1251",
            CharacterSet::Multilingual => "1252",
            CharacterSet::Greek => "1253",
            CharacterSet::Turkish => "1254",
            CharacterSet::Hebrew => "1255",
            CharacterSet::Arabic => "1256",
        }
    }

    /// The code page in hexadecimal, as it is written in a block name.
    pub fn to_hex(&self) -> (res: String)
        ensures
            res@ == self.hex_code(),
    {
        String::from_str(self.hex_str())
    }

    /// The code page in decimal, as it is written in the translation table.
    pub fn to_decimal(&self) -> (res: String)
        ensures
            res@ == self.decimal_code(),
    {
        String::from_str(self.decimal_str())
    }
}

/// The value of an upper-case hexadecimal digit.
pub open spec fn hex_digit_value(c: char) -> nat {
    if '0' <= c && c <= '9' {
        (c as int - '0' as int) as nat
    } else {
        (c as int - 'A' as int + 10) as nat
    }
}

/// The number that the hexadecimal digits `s` denote, most significant first.
pub open spec fn hex_value(s: Seq<char>) -> nat
    decreases s.len(),
{
    if s.len() == 0 {
        0
    } else {
        hex_value(s.drop_last()) * 16 + hex_digit_value(s.last())
    }
}

/// Whether `c` is an upper-case hexadecimal digit.
pub open spec fn is_hex_digit(c: char) -> bool {
    ('0' <= c && c <= '9') || ('A' <= c && c <= 'F')
}

/// Whether every character of `s` is an upper-case hexadecimal digit.
pub open spec fn all_hex_digits(s: Seq<char>) -> bool {
    forall|i: int| 0 <= i < s.len() ==> is_hex_digit(#[trigger] s[i])
}

impl CharacterSet {
    /// The number of the code page.
    pub open spec fn code_page(self) -> nat {
        match self {
            CharacterSet::ASCII7bit => 0,
            CharacterSet::JapanShiftJISX0208 => 932,
            CharacterSet::KoreaShiftKSC5601 => 949,
            CharacterSet::TaiwanBig5 => 950,
            CharacterSet::Unicode => 1200,
            CharacterSet::Latin2EasternEuropean => 1250,
            CharacterSet::Cyrillic => 1251,
            CharacterSet::Multilingual => 1252,
            CharacterSet::Greek => 1253,
            CharacterSet::Turkish => 1254,
            CharacterSet::Hebrew => 1255,
            CharacterSet::Arabic => 1256,
        }
    }
}

/// The character set with the code page `n`, if there is one.
pub open spec fn character_set_of(n: nat) -> Option<CharacterSet> {
    if n == 0 {
        Some(CharacterSet::ASCII7bit)
    } else if n == 932 {
        Some(CharacterSet::JapanShiftJISX0208)
    } else if n == 949 {
        Some(CharacterSet::KoreaShiftKSC5601)
    } else if n == 950 {
        Some(CharacterSet::TaiwanBig5)
    } else if n == 1200 {
        Some(CharacterSet::Unicode)
    } else if n == 1250 {
        Some(CharacterSet::Latin2EasternEuropean)
    } else if n == 1251 {
        Some(CharacterSet::Cyrillic)
    } else if n == 1252 {
        Some(CharacterSet::Multilingual)
    } else if n == 1253 {
        Some(CharacterSet::Greek)
    } else if n == 1254 {
        Some(CharacterSet::Turkish)
    } else if n == 1255 {
        Some(CharacterSet::Hebrew)
    } else if n == 1256 {
        Some(CharacterSet::Arabic)
    } else {
        None
    }
}

/// The block name of a character set and its entry in the translation
/// table name the same code page: its four upper-case hexadecimal digits and
/// its decimal digits both denote the number of the code page.
pub proof fn lemma_code_page_agrees(cs: CharacterSet)
    ensures
        hex_value(cs.hex_code()) == cs.code_page(),
        digits_value(cs.decimal_code()) == cs.code_page(),
        cs.hex_code().len() == 4,
        all_hex_digits(cs.hex_code()),
        character_set_of(cs.code_page()) == Some(cs),
{
    reveal_with_fuel(hex_value, 5);
    reveal_with_fuel(digits_value, 5);
    match cs {
        CharacterSet::ASCII7bit => {
            reveal_strlit("0000");
            reveal_strlit("0");
        },
        CharacterSet::JapanShiftJISX0208 => {
            reveal_strlit("03A4");
            reveal_strlit("932");
        },
        CharacterSet::KoreaShiftKSC5601 => {
            reveal_strlit("03B5");
            reveal_strlit("949");
        },
        CharacterSet::TaiwanBig5 => {
            reveal_strlit("03B6");
            reveal_strlit("950");
        },
        CharacterSet::Unicode => {
            reveal_strlit("04B0");
            reveal_strlit("1200");
        },
        CharacterSet::Latin2EasternEuropean => {
            reveal_strlit("04E2");
            reveal_strlit("1250");
        },
        CharacterSet::Cyrillic => {
            reveal_strlit("04E3");
            reveal_strlit("1251");
        },
        CharacterSet::Multilingual => {
            reveal_strlit("04E4");
            reveal_strlit("1252");
        },
        CharacterSet::Greek => {
            reveal_strlit("04E5");
            reveal_strlit("1253");
        },
        CharacterSet::Turkish => {
            reveal_strlit("04E6");
            reveal_strlit("1254");
        },
        CharacterSet::Hebrew => {
            reveal_strlit("04E7");
            reveal_strlit("1255");
        },
        CharacterSet::Arabic => {
            reveal_strlit("04E8");
            reveal_strlit("1256");
        },
    }
}

/// Different character sets have different code pages, written differently
/// both in hexadecimal and in decimal.
pub proof fn lemma_code_pages_distinct(a: CharacterSet, b: CharacterSet)
    requires
        a != b,
    ensures
        a.code_page() != b.code_page(),
        a.hex_code() != b.hex_code(),
        a.decimal_code() != b.decimal_code(),
{
    lemma_code_page_agrees(a);
    lemma_code_page_agrees(b);
}

impl Language {
    /// The language identifier as a number.
    pub open spec fn lcid(self) -> nat {
        match self {
            Language::Arabic => 1025,
            Language::Polish => 1045,
            Language::Bulgarian => 1026,
            Language::PortugueseBrazil => 1046,
            Language::Catalan => 1027,
            Language::RhaetoRomanic => 1047,
            Language::TraditionalChinese => 1028,
            Language::Romanian => 1048,
            Language::Czech => 1029,
            Language::Russian => 1049,
            Language::Danish => 1030,
            Language::CroatoSerbianLatin => 1050,
            Language::German => 1031,
            Language::Slovak => 1051,
            Language::Greek => 1032,
            Language::Albanian => 1052,
            Language::USEnglish => 1033,
            Language::Swedish => 1053,
            Language::CastilianSpanish => 1034,
            Language::Thai => 1054,
            Language::Finnish => 1035,
            Language::Turkish => 1055,
            Language::French => 1036,
            Language::Urdu => 1056,
            Language::Hebrew => 1037,
            Language::Bahasa => 1057,
            Language::Hungarian => 1038,
            Language::SimplifiedChinese => 2052,
            Language::Icelandic => 1039,
            Language::SwissGerman => 2055,
            Language::Italian => 1040,
            Language::UKEnglish => 2057,
            Language::Japanese => 1041,
            Language::SpanishMexico => 2058,
            Language::Korean => 1042,
            Language::BelgianFrench => 2060,
            Language::Dutch => 1043,
            Language::CanadianFrench => 3084,
            Language::NorwegianBokmal => 65,
            Language::SwissFrench => 4108,
            Language::SwissItalian => 2064,
            Language::PortuguesePortugal => 2070,
            Language::BelgianDutch => 2067,
            Language::SerboCyrillicCroatian => 2074,
            Language::NorwegianNynorsk => 2068,
        }
    }
}

/// The language with the identifier `n`, if there is one.
pub open spec fn language_of(n: nat) -> Option<Language> {
    if n == 1025 {
        Some(Language::Arabic)
    } else if n == 1045 {
        Some(Language::Polish)
    } else if n == 1026 {
        Some(Language::Bulgarian)
    } else if n == 1046 {
        Some(Language::PortugueseBrazil)
    } else if n == 1027 {
        Some(Language::Catalan)
    } else if n == 1047 {
        Some(Language::RhaetoRomanic)
    } else if n == 1028 {
        Some(Language::TraditionalChinese)
    } else if n == 1048 {
        Some(Language::Romanian)
    } else if n == 1029 {
        Some(Language::Czech)
    } else if n == 1049 {
        Some(Language::Russian)
    } else if n == 1030 {
        Some(Language::Danish)
    } else if n == 1050 {
        Some(Language::CroatoSerbianLatin)
    } else if n == 1031 {
        Some(Language::German)
    } else if n == 1051 {
        Some(Language::Slovak)
    } else if n == 1032 {
        Some(Language::Greek)
    } else if n == 1052 {
        Some(Language::Albanian)
    } else if n == 1033 {
        Some(Language::USEnglish)
    } else if n == 1053 {
        Some(Language::Swedish)
    } else if n == 1034 {
        Some(Language::CastilianSpanish)
    } else if n == 1054 {
        Some(Language::Thai)
    } else if n == 1035 {
        Some(Language::Finnish)
    } else if n == 1055 {
        Some(Language::Turkish)
    } else if n == 1036 {
        Some(Language::French)
    } else if n == 1056 {
        Some(Language::Urdu)
    } else if n == 1037 {
        Some(Language::Hebrew)
    } else if n == 1057 {
        Some(Language::Bahasa)
    } else if n == 1038 {
        Some(Language::Hungarian)
    } else if n == 2052 {
        Some(Language::SimplifiedChinese)
    } else if n == 1039 {
        Some(Language::Icelandic)
    } else if n == 2055 {
        Some(Language::SwissGerman)
    } else if n == 1040 {
        Some(Language::Italian)
    } else if n == 2057 {
        Some(Language::UKEnglish)
    } else if n == 1041 {
        Some(Language::Japanese)
    } else if n == 2058 {
        Some(Language::SpanishMexico)
    } else if n == 1042 {
        Some(Language::Korean)
    } else if n == 2060 {
        Some(Language::BelgianFrench)
    } else if n == 1043 {
        Some(Language::Dutch)
    } else if n == 3084 {
        Some(Language::CanadianFrench)
    } else if n == 65 {
        Some(Language::NorwegianBokmal)
    } else if n == 4108 {
        Some(Language::SwissFrench)
    } else if n == 2064 {
        Some(Language::SwissItalian)
    } else if n == 2070 {
        Some(Language::PortuguesePortugal)
    } else if n == 2067 {
        Some(Language::BelgianDutch)
    } else if n == 2074 {
        Some(Language::SerboCyrillicCroatian)
    } else if n == 2068 {
        Some(Language::NorwegianNynorsk)
    } else {
        None
    }
}

/// The code of a language denotes its identifier in hexadecimal; it has
/// four upper-case hexadecimal digits, but for Norwegian Bokmål, which has
/// the three of `041`.
pub proof fn lemma_language_code(l: Language)
    ensures
        hex_value(l.hex_code()) == l.lcid(),
        all_hex_digits(l.hex_code()),
        l.hex_code().len() == (if l is NorwegianBokmal { 3int } else { 4int }),
        language_of(l.lcid()) == Some(l),
{
    reveal_with_fuel(hex_value, 5);
    match l {
        Language::Arabic => {
            reveal_strlit("0401");
        },
        Language::Polish => {
            reveal_strlit("0415");
        },
        Language::Bulgarian => {
            reveal_strlit("0402");
        },
        Language::PortugueseBrazil => {
            reveal_strlit("0416");
        },
        Language::Catalan => {
            reveal_strlit("0403");
        },
        Language::RhaetoRomanic => {
            reveal_strlit("0417");
        },
        Language::TraditionalChinese => {
            reveal_strlit("0404");
        },
        Language::Romanian => {
            reveal_strlit("0418");
        },
        Language::Czech => {
            reveal_strlit("0405");
        },
        Language::Russian => {
            reveal_strlit("0419");
        },
        Language::Danish => {
            reveal_strlit("0406");
        },
        Language::CroatoSerbianLatin => {
            reveal_strlit("041A");
        },
        Language::German => {
            reveal_strlit("0407");
        },
        Language::Slovak => {
            reveal_strlit("041B");
        },
        Language::Greek => {
            reveal_strlit("0408");
        },
        Language::Albanian => {
            reveal_strlit("041C");
        },
        Language::USEnglish => {
            reveal_strlit("0409");
        },
        Language::Swedish => {
            reveal_strlit("041D");
        },
        Language::CastilianSpanish => {
            reveal_strlit("040A");
        },
        Language::Thai => {
            reveal_strlit("041E");
        },
        Language::Finnish => {
            reveal_strlit("040B");
        },
        Language::Turkish => {
            reveal_strlit("041F");
        },
        Language::French => {
            reveal_strlit("040C");
        },
        Language::Urdu => {
            reveal_strlit("0420");
        },
        Language::Hebrew => {
            reveal_strlit("040D");
        },
        Language::Bahasa => {
            reveal_strlit("0421");
        },
        Language::Hungarian => {
            reveal_strlit("040E");
        },
        Language::SimplifiedChinese => {
            reveal_strlit("0804");
        },
        Language::Icelandic => {
            reveal_strlit("040F");
        },
        Language::SwissGerman => {
            reveal_strlit("0807");
        },
        Language::Italian => {
            reveal_strlit("0410");
        },
        Language::UKEnglish => {
            reveal_strlit("0809");
        },
        Language::Japanese => {
            reveal_strlit("0411");
        },
        Language::SpanishMexico => {
            reveal_strlit("080A");
        },
        Language::Korean => {
            reveal_strlit("0412");
        },
        Language::BelgianFrench => {
            reveal_strlit("080C");
        },
        Language::Dutch => {
            reveal_strlit("0413");
        },
        Language::CanadianFrench => {
            reveal_strlit("0C0C");
        },
        Language::NorwegianBokmal => {
            reveal_strlit("041");
        },
        Language::SwissFrench => {
            reveal_strlit("100C");
        },
        Language::SwissItalian => {
            reveal_strlit("0810");
        },
        Language::PortuguesePortugal => {
            reveal_strlit("0816");
        },
        Language::BelgianDutch => {
            reveal_strlit("0813");
        },
        Language::SerboCyrillicCroatian => {
            reveal_strlit("081A");
        },
        Language::NorwegianNynorsk => {
            reveal_strlit("0814");
        },
    }
}

/// Different languages have different codes.
pub proof fn lemma_language_codes_distinct(a: Language, b: Language)
    requires
        a != b,
    ensures
        a.lcid() != b.lcid(),
        a.hex_code() != b.hex_code(),
{
    lemma_language_code(a);
    lemma_language_code(b);
}

} // verus!
