//! The interface languages and how a locale code selects one.
use vstd::prelude::*;
use crate::text::{
    all_ascii, ascii_lower_char, lemma_clean_keeps_ascii, ascii_lowercase, has_prefix, trim_end_spec, trim_start_spec, replace_char, replace_char_string, starts_with, to_lowercase, trim_spec, trim_str,
    unicode_lowercase,
};

verus! {

/// An interface language.
#[derive(Clone, Copy, PartialEq, Eq, Debug, Structural)]
pub enum Language {
    EnUs,
    EnGb,
    EsEs,
    EsLa,
    FrFr,
    FrCa,
    ItIt,
    DeDe,
    ZhCn,
    ZhTw,
    JaJp,
    KoKr,
}

/// Number of supported languages.
pub const LANGUAGE_COUNT: usize = 12;

/// Position of a language in the settings cycle.
pub open spec fn language_index(l: Language) -> int {
    match l {
        Language::EnUs => 0,
        Language::EnGb => 1,
        Language::EsEs => 2,
        Language::EsLa => 3,
        Language::FrFr => 4,
        Language::FrCa => 5,
        Language::ItIt => 6,
        Language::DeDe => 7,
        Language::ZhCn => 8,
        Language::ZhTw => 9,
        Language::JaJp => 10,
        Language::KoKr => 11,
    }
}

/// The language at position `i` of the settings cycle (English (US) past the end).
pub open spec fn language_at(i: int) -> Language {
    if i == 1 {
        Language::EnGb
    } else if i == 2 {
        Language::EsEs
    } else if i == 3 {
        Language::EsLa
    } else if i == 4 {
        Language::FrFr
    } else if i == 5 {
        Language::FrCa
    } else if i == 6 {
        Language::ItIt
    } else if i == 7 {
        Language::DeDe
    } else if i == 8 {
        Language::ZhCn
    } else if i == 9 {
        Language::ZhTw
    } else if i == 10 {
        Language::JaJp
    } else if i == 11 {
        Language::KoKr
    } else {
        Language::EnUs
    }
}

/// The language after `l` in the settings cycle, wrapping around.
pub open spec fn language_after(l: Language) -> Language {
    language_at((language_index(l) + 1) % 12)
}

/// The language before `l` in the settings cycle, wrapping around.
pub open spec fn language_before(l: Language) -> Language {
    language_at((language_index(l) + 11) % 12)
}

/// The locale code of a language.
pub open spec fn language_code(l: Language) -> Seq<char> {
    match l {
        Language::EnUs => "en-US"@,
        Language::EnGb => "en-GB"@,
        Language::EsEs => "es-ES"@,
        Language::EsLa => "es-LA"@,
        Language::FrFr => "fr-FR"@,
        Language::FrCa => "fr-CA"@,
        Language::ItIt => "it-IT"@,
        Language::DeDe => "de-DE"@,
        Language::ZhCn => "zh-CN"@,
        Language::ZhTw => "zh-TW"@,
        Language::JaJp => "ja-JP"@,
        Language::KoKr => "ko-KR"@,
    }
}

/// The name a language is shown under, written in that language.
pub open spec fn language_display_name(l: Language) -> Seq<char> {
    match l {
        Language::EnUs => "English (US)"@,
        Language::EnGb => "English (UK)"@,
        Language::EsEs => "Español (España)"@,
        Language::EsLa => "Español (Latinoamérica)"@,
        Language::FrFr => "Français (France)"@,
        Language::FrCa => "Français (Canada)"@,
        Language::ItIt => "Italiano"@,
        Language::DeDe => "Deutsch"@,
        Language::ZhCn => "简体中文 (Simplified Chinese)"@,
        Language::ZhTw => "繁體中文 (Traditional Chinese)"@,
        Language::JaJp => "日本語 (Japanese)"@,
        Language::KoKr => "한국어 (Korean)"@,
    }
}

/// The language that a cleaned locale code (trimmed, `_` turned into `-`,
/// lowercased) selects: the first matching prefix rule, English (US) otherwise.
pub open spec fn language_for_clean_code(clean: Seq<char>) -> Language {
    if has_prefix(clean, seq!['e', 'n', '-', 'g', 'b']) || has_prefix(clean, seq!['e', 'n', '-', 'u', 'k']) {
        Language::EnGb
    } else if has_prefix(clean, seq!['e', 's', '-', 'e', 's']) {
        Language::EsEs
    } else if has_prefix(clean, seq!['e', 's']) {
        Language::EsLa
    } else if has_prefix(clean, seq!['f', 'r', '-', 'c', 'a']) {
        Language::FrCa
    } else if has_prefix(clean, seq!['f', 'r']) {
        Language::FrFr
    } else if has_prefix(clean, seq!['i', 't']) {
        Language::ItIt
    } else if has_prefix(clean, seq!['d', 'e']) {
        Language::DeDe
    } else if has_prefix(clean, seq!['z', 'h', '-', 't', 'w']) || has_prefix(clean, seq!['z', 'h', '-', 'h', 'k']) || has_prefix(
        clean,
        seq!['z', 'h', '-', 'h', 'a', 'n', 't'],
    ) {
        Language::ZhTw
    } else if has_prefix(clean, seq!['z', 'h']) {
        Language::ZhCn
    } else if has_prefix(clean, seq!['j', 'a']) {
        Language::JaJp
    } else if has_prefix(clean, seq!['k', 'o']) {
        Language::KoKr
    } else {
        Language::EnUs
    }
}

/// The cleaned form of a locale code: trimmed, `_` replaced by `-`, lowercased.
pub open spec fn clean_locale_code(code: Seq<char>) -> Seq<char> {
    unicode_lowercase(replace_char(trim_spec(code), '_', '-'))
}

/// What `sys_locale::get_locale` reports for the current user.
#[verifier::external_body]
fn system_locale() -> (r: Option<String>)
{
    sys_locale::get_locale()
}

impl Language {
    /// Position of this language in the settings cycle.
    pub fn index(&self) -> (r: usize)
        ensures
            r == language_index(*self),
    {
        match self {
            Language::EnUs => 0,
            Language::EnGb => 1,
            Language::EsEs => 2,
            Language::EsLa => 3,
            Language::FrFr => 4,
            Language::FrCa => 5,
            Language::ItIt => 6,
            Language::DeDe => 7,
            Language::ZhCn => 8,
            Language::ZhTw => 9,
            Language::JaJp => 10,
            Language::KoKr => 11,
        }
    }

    /// The language at a position of the settings cycle.
    pub fn at_index(i: usize) -> (r: Language)
        ensures
            r == language_at(i as int),
    {
        if i == 1 {
            Language::EnGb
        } else if i == 2 {
            Language::EsEs
        } else if i == 3 {
            Language::EsLa
        } else if i == 4 {
            Language::FrFr
        } else if i == 5 {
            Language::FrCa
        } else if i == 6 {
            Language::ItIt
        } else if i == 7 {
            Language::DeDe
        } else if i == 8 {
            Language::ZhCn
        } else if i == 9 {
            Language::ZhTw
        } else if i == 10 {
            Language::JaJp
        } else if i == 11 {
            Language::KoKr
        } else {
            Language::EnUs
        }
    }

    pub fn code(&self) -> (r: &'static str)
        ensures
            r@ == language_code(*self),
    {
        match self {
            Language::EnUs => "en-US",
            Language::EnGb => "en-GB",
            Language::EsEs => "es-ES",
            Language::EsLa => "es-LA",
            Language::FrFr => "fr-FR",
            Language::FrCa => "fr-CA",
            Language::ItIt => "it-IT",
            Language::DeDe => "de-DE",
            Language::ZhCn => "zh-CN",
            Language::ZhTw => "zh-TW",
            Language::JaJp => "ja-JP",
            Language::KoKr => "ko-KR",
        }
    }

    pub fn display_name(&self) -> (r: &'static str)
        ensures
            r@ == language_display_name(*self),
    {
        match self {
            Language::EnUs => "English (US)",
            Language::EnGb => "English (UK)",
            Language::EsEs => "Español (España)",
            Language::EsLa => "Español (Latinoamérica)",
            Language::FrFr => "Français (France)",
            Language::FrCa => "Français (Canada)",
            Language::ItIt => "Italiano",
            Language::DeDe => "Deutsch",
            Language::ZhCn => "简体中文 (Simplified Chinese)",
            Language::ZhTw => "繁體中文 (Traditional Chinese)",
            Language::JaJp => "日本語 (Japanese)",
            Language::KoKr => "한국어 (Korean)",
        }
    }

    /// The following language in the settings cycle, wrapping around.
    pub fn next(&self) -> (r: Self)
        ensures
            r == language_after(*self),
    {
        let idx = self.index();
        Self::at_index((idx + 1) % LANGUAGE_COUNT)
    }

    /// The preceding language in the settings cycle, wrapping around.
    pub fn prev(&self) -> (r: Self)
        ensures
            r == language_before(*self),
    {
        let idx = self.index();
        let prev_idx = if idx == 0 {
            LANGUAGE_COUNT - 1
        } else {
            idx - 1
        };
        Self::at_index(prev_idx)
    }

    /// The language selected by an already cleaned locale code.
    pub fn from_clean_code(clean: &str) -> (r: Self)
        ensures
            r == language_for_clean_code(clean@),
    {
        proof {
            reveal_strlit("en-gb");
            assert("en-gb"@ =~= seq!['e', 'n', '-', 'g', 'b']);
            reveal_strlit("en-uk");
            assert("en-uk"@ =~= seq!['e', 'n', '-', 'u', 'k']);
            reveal_strlit("es-es");
            assert("es-es"@ =~= seq!['e', 's', '-', 'e', 's']);
            reveal_strlit("es");
            assert("es"@ =~= seq!['e', 's']);
            reveal_strlit("fr-ca");
            assert("fr-ca"@ =~= seq!['f', 'r', '-', 'c', 'a']);
            reveal_strlit("fr");
            assert("fr"@ =~= seq!['f', 'r']);
            reveal_strlit("it");
            assert("it"@ =~= seq!['i', 't']);
            reveal_strlit("de");
            assert("de"@ =~= seq!['d', 'e']);
            reveal_strlit("zh-tw");
            assert("zh-tw"@ =~= seq!['z', 'h', '-', 't', 'w']);
            reveal_strlit("zh-hk");
            assert("zh-hk"@ =~= seq!['z', 'h', '-', 'h', 'k']);
            reveal_strlit("zh-hant");
            assert("zh-hant"@ =~= seq!['z', 'h', '-', 'h', 'a', 'n', 't']);
            reveal_strlit("zh");
            assert("zh"@ =~= seq!['z', 'h']);
            reveal_strlit("ja");
            assert("ja"@ =~= seq!['j', 'a']);
            reveal_strlit("ko");
            assert("ko"@ =~= seq!['k', 'o']);
        }
        if starts_with(clean, "en-gb") || starts_with(clean, "en-uk") {
            Language::EnGb
        } else if starts_with(clean, "es-es") {
            Language::EsEs
        } else if starts_with(clean, "es") {
            Language::EsLa
        } else if starts_with(clean, "fr-ca") {
            Language::FrCa
        } else if starts_with(clean, "fr") {
            Language::FrFr
        } else if starts_with(clean, "it") {
            Language::ItIt
        } else if starts_with(clean, "de") {
            Language::DeDe
        } else if starts_with(clean, "zh-tw") || starts_with(clean, "zh-hk") || starts_with(
            clean,
            "zh-hant",
        ) {
            Language::ZhTw
        } else if starts_with(clean, "zh") {
            Language::ZhCn
        } else if starts_with(clean, "ja") {
            Language::JaJp
        } else if starts_with(clean, "ko") {
            Language::KoKr
        } else {
            Language::EnUs
        }
    }

    /// The language a locale code such as `en_GB` or ` fr-CA ` selects.
    pub fn from_code(code: &str) -> (r: Self)
        ensures
            r == language_for_clean_code(clean_locale_code(code@)),
            all_ascii(code@) ==> r == language_for_clean_code(
                ascii_lowercase(replace_char(trim_spec(code@), '_', '-')),
            ),
    {
        proof {
            if all_ascii(code@) {
                lemma_clean_keeps_ascii(code@);
            }
        }
        let trimmed = trim_str(code);
        let replaced = replace_char_string(trimmed, '_', '-');
        let clean = to_lowercase(replaced.as_str());
        Self::from_clean_code(clean.as_str())
    }

    /// The language of the user's system locale, English (US) when the system
    /// reports none.
    pub fn from_system_locale() -> (r: Self) {
        Self::from_locale(system_locale())
    }

    /// The language a system locale report selects, English (US) when the
    /// report is empty.
    pub fn from_locale(locale: Option<String>) -> (r: Self)
        ensures
            r == language_for_locale(
                match locale {
                    Some(s) => Some(s@),
                    None => None,
                },
            ),
    {
        match locale {
            Some(code) => Self::from_code(code.as_str()),
            None => Language::EnUs,
        }
    }
}

/// The language a locale report selects: the one its code names, English (US)
/// when there is none.
pub open spec fn language_for_locale(locale: Option<Seq<char>>) -> Language {
    match locale {
        Some(code) => language_for_clean_code(clean_locale_code(code)),
        None => Language::EnUs,
    }
}

/// Stepping back through the languages undoes stepping forward and the other
/// way round; twelve steps forward visit every language once and come back.
pub proof fn lemma_language_cycle(l: Language)
    ensures
        language_before(language_after(l)) == l,
        language_after(language_before(l)) == l,
        forall|i: int| 0 <= i < 12 ==> language_index(#[trigger] language_at(i)) == i,
        language_at(language_index(l)) == l,
{
}

/// A language's own code, cleaned (trimmed, `_` to `-`, ASCII-lowercased),
/// selects that language again; the code is ASCII with no whitespace or `_`.
pub proof fn lemma_code_selects_language(l: Language)
    ensures
        all_ascii(language_code(l)),
        trim_spec(language_code(l)) == language_code(l),
        replace_char(language_code(l), '_', '-') == language_code(l),
        language_for_clean_code(ascii_lowercase(language_code(l))) == l,
{
    reveal_strlit("en-US");
    reveal_strlit("en-GB");
    reveal_strlit("es-ES");
    reveal_strlit("es-LA");
    reveal_strlit("fr-FR");
    reveal_strlit("fr-CA");
    reveal_strlit("it-IT");
    reveal_strlit("de-DE");
    reveal_strlit("zh-CN");
    reveal_strlit("zh-TW");
    reveal_strlit("ja-JP");
    reveal_strlit("ko-KR");
    let c = language_code(l);
    assert(trim_start_spec(c) == c);
    assert(trim_end_spec(c) == c);
    assert(replace_char(c, '_', '-') =~= c);
    let low = ascii_lowercase(c);
    assert(low.len() == c.len());
    assert forall|i: int| 0 <= i < low.len() implies low[i] == ascii_lower_char(#[trigger] c[i]) by {}
    assert(low[0] == ascii_lower_char(c[0]));
    assert(low[1] == ascii_lower_char(c[1]));
    assert(low[2] == ascii_lower_char(c[2]));
    assert(low[3] == ascii_lower_char(c[3]));
    assert(low[4] == ascii_lower_char(c[4]));
}

} // verus!
