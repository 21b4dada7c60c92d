//! Languages understood by the DeepL API and their request codes.
use vstd::prelude::*;

verus! {

/// A language that DeepL translates from or into.
#[allow(non_camel_case_types)]
#[derive(Debug, Clone, Copy, PartialEq, Eq, Structural)]
pub enum Lang {
    /// Bulgarian
    BG,
    /// Czech
    CS,
    /// Danish
    DA,
    /// German
    DE,
    /// Greek
    EL,
    /// English
    EN,
    /// English (British)
    EN_GB,
    /// English (American)
    EN_US,
    /// Spanish
    ES,
    /// Estonian
    ET,
    /// Finnish
    FI,
    /// French
    FR,
    /// Hungarian
    HU,
    /// Indonesian
    ID,
    /// Italian
    IT,
    /// Japanese
    JA,
    /// Korean
    KO,
    /// Lithuanian
    LT,
    /// Latvian
    LV,
    /// Norwegian (Bokmal)
    NB,
    /// Dutch
    NL,
    /// Polish
    PL,
    /// Portuguese
    PT,
    /// Portuguese (Brazilian)
    PT_BR,
    /// Portuguese (European)
    PT_PT,
    /// Romanian
    RO,
    /// Russian
    RU,
    /// Slovak
    SK,
    /// Slovenian
    SL,
    /// Swedish
    SV,
    /// Turkish
    TR,
    /// Ukrainian
    UK,
    /// Chinese
    ZH,
}

/// The code by which the DeepL API names `lang`.
pub open spec fn lang_code(lang: Lang) -> Seq<char> {
    match lang {
        Lang::BG => "BG"@,
        Lang::CS => "CS"@,
        Lang::DA => "DA"@,
        Lang::DE => "DE"@,
        Lang::EL => "EL"@,
        Lang::EN => "EN"@,
        Lang::EN_GB => "EN-GB"@,
        Lang::EN_US => "EN-US"@,
        Lang::ES => "ES"@,
        Lang::ET => "ET"@,
        Lang::FI => "FI"@,
        Lang::FR => "FR"@,
        Lang::HU => "HU"@,
        Lang::ID => "ID"@,
        Lang::IT => "IT"@,
        Lang::JA => "JA"@,
        Lang::KO => "KO"@,
        Lang::LT => "LT"@,
        Lang::LV => "LV"@,
        Lang::NB => "NB"@,
        Lang::NL => "NL"@,
        Lang::PL => "PL"@,
        Lang::PT => "PT"@,
        Lang::PT_BR => "PT-BR"@,
        Lang::PT_PT => "PT-PT"@,
        Lang::RO => "RO"@,
        Lang::RU => "RU"@,
        Lang::SK => "SK"@,
        Lang::SL => "SL"@,
        Lang::SV => "SV"@,
        Lang::TR => "TR"@,
        Lang::UK => "UK"@,
        Lang::ZH => "ZH"@,
    }
}

impl Lang {
    /// The code of this language in DeepL requests, such as `"EN-GB"`.
    pub fn as_ref(&self) -> (code: &'static str)
        ensures
            code@ == lang_code(*self),
    {
        match self {
            Lang::BG => "BG",
            Lang::CS => "CS",
            Lang::DA => "DA",
            Lang::DE => "DE",
            Lang::EL => "EL",
            Lang::EN => "EN",
            Lang::EN_GB => "EN-GB",
            Lang::EN_US => "EN-US",
            Lang::ES => "ES",
            Lang::ET => "ET",
            Lang::FI => "FI",
            Lang::FR => "FR",
            Lang::HU => "HU",
            Lang::ID => "ID",
            Lang::IT => "IT",
            Lang::JA => "JA",
            Lang::KO => "KO",
            Lang::LT => "LT",
            Lang::LV => "LV",
            Lang::NB => "NB",
            Lang::NL => "NL",
            Lang::PL => "PL",
            Lang::PT => "PT",
            Lang::PT_BR => "PT-BR",
            Lang::PT_PT => "PT-PT",
            Lang::RO => "RO",
            Lang::RU => "RU",
            Lang::SK => "SK",
            Lang::SL => "SL",
            Lang::SV => "SV",
            Lang::TR => "TR",
            Lang::UK => "UK",
            Lang::ZH => "ZH",
        }
    }

    /// The code of this language as an owned string.
    pub fn to_string(&self) -> (code: String)
        ensures
            code@ == lang_code(*self),
    {
        String::from_str(self.as_ref())
    }
}

/// Different languages are sent as different codes.
pub proof fn law_lang_codes_distinct(a: Lang, b: Lang)
    ensures
        lang_code(a) == lang_code(b) ==> a == b,
{
    reveal_strlit("BG");
    reveal_strlit("CS");
    reveal_strlit("DA");
    reveal_strlit("DE");
    reveal_strlit("EL");
    reveal_strlit("EN");
    reveal_strlit("EN-GB");
    reveal_strlit("EN-US");
    reveal_strlit("ES");
    reveal_strlit("ET");
    reveal_strlit("FI");
    reveal_strlit("FR");
    reveal_strlit("HU");
    reveal_strlit("ID");
    reveal_strlit("IT");
    reveal_strlit("JA");
    reveal_strlit("KO");
    reveal_strlit("LT");
    reveal_strlit("LV");
    reveal_strlit("NB");
    reveal_strlit("NL");
    reveal_strlit("PL");
    reveal_strlit("PT");
    reveal_strlit("PT-BR");
    reveal_strlit("PT-PT");
    reveal_strlit("RO");
    reveal_strlit("RU");
    reveal_strlit("SK");
    reveal_strlit("SL");
    reveal_strlit("SV");
    reveal_strlit("TR");
    reveal_strlit("UK");
    reveal_strlit("ZH");
    if lang_code(a) == lang_code(b) && a != b {
        let sa = lang_code(a);
        let sb = lang_code(b);
        assert(sa.len() == sb.len());
        assert(sa[0] == sb[0]);
        assert(sa[1] == sb[1]);
        if sa.len() > 2 {
            assert(sa[3] == sb[3]);
            assert(sa[4] == sb[4]);
        }
    }
}

/// The DeepL code of every language, character by character (ISO 639-1 in capitals, a
/// regional variant after a hyphen).
pub proof fn law_lang_code_table()
    ensures
        lang_code(Lang::BG) == seq!['B', 'G'],
        lang_code(Lang::CS) == seq!['C', 'S'],
        lang_code(Lang::DA) == seq!['D', 'A'],
        lang_code(Lang::DE) == seq!['D', 'E'],
        lang_code(Lang::EL) == seq!['E', 'L'],
        lang_code(Lang::EN) == seq!['E', 'N'],
        lang_code(Lang::EN_GB) == seq!['E', 'N', '-', 'G', 'B'],
        lang_code(Lang::EN_US) == seq!['E', 'N', '-', 'U', 'S'],
        lang_code(Lang::ES) == seq!['E', 'S'],
        lang_code(Lang::ET) == seq!['E', 'T'],
        lang_code(Lang::FI) == seq!['F', 'I'],
        lang_code(Lang::FR) == seq!['F', 'R'],
        lang_code(Lang::HU) == seq!['H', 'U'],
        lang_code(Lang::ID) == seq!['I', 'D'],
        lang_code(Lang::IT) == seq!['I', 'T'],
        lang_code(Lang::JA) == seq!['J', 'A'],
        lang_code(Lang::KO) == seq!['K', 'O'],
        lang_code(Lang::LT) == seq!['L', 'T'],
        lang_code(Lang::LV) == seq!['L', 'V'],
        lang_code(Lang::NB) == seq!['N', 'B'],
        lang_code(Lang::NL) == seq!['N', 'L'],
        lang_code(Lang::PL) == seq!['P', 'L'],
        lang_code(Lang::PT) == seq!['P', 'T'],
        lang_code(Lang::PT_BR) == seq!['P', 'T', '-', 'B', 'R'],
        lang_code(Lang::PT_PT) == seq!['P', 'T', '-', 'P', 'T'],
        lang_code(Lang::RO) == seq!['R', 'O'],
        lang_code(Lang::RU) == seq!['R', 'U'],
        lang_code(Lang::SK) == seq!['S', 'K'],
        lang_code(Lang::SL) == seq!['S', 'L'],
        lang_code(Lang::SV) == seq!['S', 'V'],
        lang_code(Lang::TR) == seq!['T', 'R'],
        lang_code(Lang::UK) == seq!['U', 'K'],
        lang_code(Lang::ZH) == seq!['Z', 'H'],
{
    reveal_strlit("BG");
    reveal_strlit("CS");
    reveal_strlit("DA");
    reveal_strlit("DE");
    reveal_strlit("EL");
    reveal_strlit("EN");
    reveal_strlit("EN-GB");
    reveal_strlit("EN-US");
    reveal_strlit("ES");
    reveal_strlit("ET");
    reveal_strlit("FI");
    reveal_strlit("FR");
    reveal_strlit("HU");
    reveal_strlit("ID");
    reveal_strlit("IT");
    reveal_strlit("JA");
    reveal_strlit("KO");
    reveal_strlit("LT");
    reveal_strlit("LV");
    reveal_strlit("NB");
    reveal_strlit("NL");
    reveal_strlit("PL");
    reveal_strlit("PT");
    reveal_strlit("PT-BR");
    reveal_strlit("PT-PT");
    reveal_strlit("RO");
    reveal_strlit("RU");
    reveal_strlit("SK");
    reveal_strlit("SL");
    reveal_strlit("SV");
    reveal_strlit("TR");
    reveal_strlit("UK");
    reveal_strlit("ZH");
}

} // verus!
