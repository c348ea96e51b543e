use audio_tetris::i18n::Language;
use audio_tetris::settings::{theme_colors, Difficulty, FontScale, ThemePreference, WindowSizeMode};

#[test]
fn test_window_size_cycling() {
    let size = WindowSizeMode::Standard;
    assert_eq!(size.next(), WindowSizeMode::Large);
    assert_eq!(size.next().next(), WindowSizeMode::Maximized);
    assert_eq!(size.next().next().next(), WindowSizeMode::Standard);

    assert_eq!(size.prev(), WindowSizeMode::Maximized);
}

#[test]
fn test_font_scale_cycling_and_points() {
    let font = FontScale::Standard;
    assert_eq!(font.point_size(), 14);
    assert_eq!(font.next(), FontScale::Large);
    assert_eq!(font.next().point_size(), 18);
    assert_eq!(font.next().next(), FontScale::ExtraLarge);
    assert_eq!(font.next().next().point_size(), 22);
    assert_eq!(font.next().next().next(), FontScale::Standard);

    assert_eq!(font.prev(), FontScale::ExtraLarge);
}

#[test]
fn test_language_cycling() {
    let mut lang = Language::EnUs;
    lang = lang.next();
    assert_eq!(lang, Language::EnGb);
    lang = lang.prev();
    assert_eq!(lang, Language::EnUs);
    lang = lang.prev();
    assert_eq!(lang, Language::KoKr);
}

#[test]
fn test_from_code_parsing() {
    assert_eq!(Language::from_code("en-US"), Language::EnUs);
    assert_eq!(Language::from_code("en_GB"), Language::EnGb);
    assert_eq!(Language::from_code("es-ES"), Language::EsEs);
    assert_eq!(Language::from_code("es-MX"), Language::EsLa);
    assert_eq!(Language::from_code("fr-CA"), Language::FrCa);
    assert_eq!(Language::from_code("fr-FR"), Language::FrFr);
    assert_eq!(Language::from_code("it-IT"), Language::ItIt);
    assert_eq!(Language::from_code("de-DE"), Language::DeDe);
    assert_eq!(Language::from_code("zh-CN"), Language::ZhCn);
    assert_eq!(Language::from_code("zh-TW"), Language::ZhTw);
    assert_eq!(Language::from_code("ja-JP"), Language::JaJp);
    assert_eq!(Language::from_code("ko-KR"), Language::KoKr);
    assert_eq!(Language::from_code("unknown"), Language::EnUs);
}

#[test]
fn difficulty_labels() {
    assert_eq!(Difficulty::Easy.as_str(), "Easy");
    assert_eq!(Difficulty::Moderate.as_str(), "Moderate");
    assert_eq!(Difficulty::Difficult.as_str(), "Difficult");
}

#[test]
fn test_theme_colors() {
    let (bg, fg) = theme_colors(ThemePreference::Dark);
    assert_eq!(bg, (18, 18, 24));
    assert_eq!(fg, (245, 245, 245));
    let (bg_l, fg_l) = theme_colors(ThemePreference::Light);
    assert_eq!(bg_l, (18, 18, 24));
    assert_eq!(fg_l, (245, 245, 245));
}

#[test]
fn locale_codes_follow_the_catalog_names() {
    assert_eq!(Language::EnUs.code(), "en-US");
    assert_eq!(Language::EnGb.code(), "en-GB");
    assert_eq!(Language::EsEs.code(), "es-ES");
    assert_eq!(Language::EsLa.code(), "es-LA");
    assert_eq!(Language::FrFr.code(), "fr-FR");
    assert_eq!(Language::FrCa.code(), "fr-CA");
    assert_eq!(Language::ItIt.code(), "it-IT");
    assert_eq!(Language::DeDe.code(), "de-DE");
    assert_eq!(Language::ZhCn.code(), "zh-CN");
    assert_eq!(Language::ZhTw.code(), "zh-TW");
    assert_eq!(Language::JaJp.code(), "ja-JP");
    assert_eq!(Language::KoKr.code(), "ko-KR");
    for l in [Language::EsLa, Language::EsEs, Language::ZhTw, Language::EnGb] {
        assert_eq!(Language::from_code(l.code()), l);
    }
}

#[test]
fn ascii_locale_codes_are_cleaned_before_matching() {
    assert_eq!(Language::from_code(" es_mx "), Language::EsLa);
    assert_eq!(Language::from_code("ZH_hant_TW"), Language::ZhTw);
    assert_eq!(Language::from_code("EN-gb"), Language::EnGb);
    assert_eq!(Language::from_code("xx"), Language::EnUs);
}
