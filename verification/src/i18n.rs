//! Language selection for the surrounding application's localization.
//!
//! The library decides which language a locale tag names; recording the
//! chosen locale for the localization machinery is an outside call.

use vstd::prelude::*;
use vstd::string::StrSliceExecFns;

verus! {

/// A language the surrounding application can display.
#[derive(Debug, Clone, Copy, PartialEq, Eq, Structural)]
pub enum Language {
    English,
    Chinese,
    Spanish,
}

/// The language a locale tag names: tags opening with "zh" mean Chinese
/// and tags opening with "es" mean Spanish; every other tag — and a
/// missing one — falls back to English.
pub open spec fn spec_language_for(tag: Seq<char>) -> Language {
    if tag.len() >= 2 && tag[0] == 'z' && tag[1] == 'h' {
        Language::Chinese
    } else if tag.len() >= 2 && tag[0] == 'e' && tag[1] == 's' {
        Language::Spanish
    } else {
        Language::English
    }
}

impl Language {
    /// The two-letter tag of this language.
    pub open spec fn spec_tag(self) -> Seq<char> {
        match self {
            Language::English => "en"@,
            Language::Chinese => "zh"@,
            Language::Spanish => "es"@,
        }
    }

    /// The two-letter tag of this language.
    pub fn as_str(&self) -> (r: &'static str)
        ensures
            r@ == self.spec_tag(),
    {
        match self {
            Language::English => "en",
            Language::Chinese => "zh",
            Language::Spanish => "es",
        }
    }

    /// Picks the language for an environment-supplied locale tag;
    /// `None` stands for an environment that names none.
    pub fn for_locale_tag(tag: Option<&str>) -> (r: Language)
        ensures
            tag is None ==> r == Language::English,
            tag matches Some(t) ==> r == spec_language_for(t@),
    {
        match tag {
            None => Language::English,
            Some(t) => {
                if starts_with_pair(t, 'z', 'h') {
                    Language::Chinese
                } else if starts_with_pair(t, 'e', 's') {
                    Language::Spanish
                } else {
                    Language::English
                }
            },
        }
    }
}

/// Handle for the localization machinery, fixed to one language.
pub struct I18n;

impl I18n {
    /// Records `language` as the active locale and hands back the handle.
    pub fn new(language: Language) -> I18n {
        set_locale_tag(language.as_str());
        I18n
    }

    /// Records `language` as the active locale.
    pub fn set_language(language: Language) {
        set_locale_tag(language.as_str());
    }
}

/// Relies on rust_i18n::set_locale: stores the tag in a process-wide slot
/// for later lookups by the localization machinery; returns nothing.
#[verifier::external_body]
fn set_locale_tag(tag: &str) {
    rust_i18n::set_locale(tag);
}

/// Whether `s` opens with the two characters `a`, `b`.
fn starts_with_pair(s: &str, a: char, b: char) -> (r: bool)
    ensures
        r == (s@.len() >= 2 && s@[0] == a && s@[1] == b),
{
    if s.unicode_len() >= 2 {
        s.get_char(0) == a && s.get_char(1) == b
    } else {
        false
    }
}

} // verus!
