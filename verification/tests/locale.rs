use pdf_print::i18n::{I18n, Language};

#[test]
fn language_tags() {
    assert_eq!(Language::English.as_str(), "en");
    assert_eq!(Language::Chinese.as_str(), "zh");
    assert_eq!(Language::Spanish.as_str(), "es");
}

#[test]
fn language_for_locale_tag_prefixes() {
    assert_eq!(Language::for_locale_tag(Some("zh_CN.UTF-8")), Language::Chinese);
    assert_eq!(Language::for_locale_tag(Some("zh")), Language::Chinese);
    assert_eq!(Language::for_locale_tag(Some("es_ES")), Language::Spanish);
    assert_eq!(Language::for_locale_tag(Some("en_US.UTF-8")), Language::English);
    assert_eq!(Language::for_locale_tag(Some("fr_FR")), Language::English);
    assert_eq!(Language::for_locale_tag(Some("z")), Language::English);
    assert_eq!(Language::for_locale_tag(Some("")), Language::English);
    assert_eq!(Language::for_locale_tag(None), Language::English);
}

#[test]
fn i18n_records_language() {
    let _handle = I18n::new(Language::Spanish);
    assert_eq!(rust_i18n::locale().to_string(), "es");

    I18n::set_language(Language::Chinese);
    assert_eq!(rust_i18n::locale().to_string(), "zh");
}
