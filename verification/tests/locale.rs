use std::sync::Arc;

use fluent_zero::resolve::second_tier;
use fluent_zero::{
    get_lang, parse_locale, set_lang, set_lang_from_tag, LocaleRegistry, LocaleState,
    FALLBACK_LANG_KEY,
};
use unic_langid::parser::ParserError as TagError;
use unic_langid::LanguageIdentifierError;

#[test]
fn fallback_locale_key_is_en_us() {
    assert_eq!(FALLBACK_LANG_KEY, "en-US");
}

#[test]
fn well_formed_tags_parse() {
    for tag in ["en-US", "fr-FR", "de", "zh-Hans-CN", "und", "sr-Cyrl", "es-419"] {
        match parse_locale(tag) {
            Ok(id) => assert_eq!(id.to_string(), tag),
            Err(_) => panic!("{} is a valid tag", tag),
        }
    }
}

#[test]
fn malformed_language_is_refused_with_its_cause() {
    for tag in ["", "x", "e1", "abcd", "toolonglanguage", "12"] {
        match parse_locale(tag) {
            Ok(_) => panic!("{:?} is no valid tag", tag),
            Err(e) => assert_eq!(
                e.cause,
                LanguageIdentifierError::ParserError(TagError::InvalidLanguage)
            ),
        }
    }
}

#[test]
fn malformed_subtag_is_refused_with_its_cause() {
    for tag in ["en-US-!!", "en-", "en-US-x", "fr-FR-FR"] {
        match parse_locale(tag) {
            Ok(_) => panic!("{:?} is no valid tag", tag),
            Err(e) => assert_eq!(
                e.cause,
                LanguageIdentifierError::ParserError(TagError::InvalidSubtag)
            ),
        }
    }
}

#[test]
fn snapshot_key_is_the_canonical_text_of_its_identifier() {
    for (tag, key) in [
        ("en-US", "en-US"),
        ("en_us", "en-US"),
        ("FR-fr", "fr-FR"),
        ("zh_hans_cn", "zh-Hans-CN"),
        ("DE", "de"),
    ] {
        let id = match parse_locale(tag) {
            Ok(id) => id,
            Err(_) => panic!("{} is a valid tag", tag),
        };
        let state = LocaleState::new(id.clone());
        assert_eq!(state.key(), key);
        assert_eq!(state.id(), &id);
        assert_eq!(state.key(), state.id().to_string());
    }
}

#[test]
fn new_register_starts_at_the_fallback_locale() {
    let registry = match LocaleRegistry::new() {
        Ok(registry) => registry,
        Err(_) => panic!("the fallback locale is a valid tag"),
    };
    let state = get_lang(&registry);
    assert_eq!(state.key(), FALLBACK_LANG_KEY);
    assert_eq!(state.id().to_string(), "en-US");
}

#[test]
fn register_yields_what_was_set_last() {
    let registry = match parse_locale("en-US") {
        Ok(id) => LocaleRegistry::with_locale(id),
        Err(_) => panic!("en-US is a valid tag"),
    };
    assert_eq!(get_lang(&registry).key(), "en-US");
    for tag in ["fr-FR", "de", "en-US", "ja-JP"] {
        match parse_locale(tag) {
            Ok(id) => set_lang(&registry, id),
            Err(_) => panic!("{} is a valid tag", tag),
        }
        assert_eq!(get_lang(&registry).key(), tag);
        assert_eq!(get_lang(&registry).key(), tag);
    }
}

#[test]
fn setting_from_a_tag_switches_to_its_canonical_form() {
    let registry = match LocaleRegistry::new() {
        Ok(registry) => registry,
        Err(_) => panic!("the fallback locale is a valid tag"),
    };
    assert!(set_lang_from_tag(&registry, "pt_br").is_ok());
    assert_eq!(get_lang(&registry).key(), "pt-BR");
}

#[test]
fn malformed_tag_leaves_the_active_locale_untouched() {
    let registry = match LocaleRegistry::new() {
        Ok(registry) => registry,
        Err(_) => panic!("the fallback locale is a valid tag"),
    };
    assert!(set_lang_from_tag(&registry, "fr-FR").is_ok());
    let before = get_lang(&registry);
    match set_lang_from_tag(&registry, "not a tag") {
        Ok(()) => panic!("a malformed tag must be refused"),
        Err(e) => assert_eq!(
            e.cause,
            LanguageIdentifierError::ParserError(TagError::InvalidLanguage)
        ),
    }
    let after = get_lang(&registry);
    assert_eq!(after.key(), "fr-FR");
    assert!(Arc::ptr_eq(&before, &after));
}

#[test]
fn old_snapshot_is_never_changed_in_place() {
    let registry = match parse_locale("it-IT") {
        Ok(id) => LocaleRegistry::with_locale(id),
        Err(_) => panic!("it-IT is a valid tag"),
    };
    let old = get_lang(&registry);
    assert!(set_lang_from_tag(&registry, "nl-NL").is_ok());
    let new = get_lang(&registry);
    assert_eq!(old.key(), "it-IT");
    assert_eq!(old.id().to_string(), "it-IT");
    assert_eq!(new.key(), "nl-NL");
    assert!(!Arc::ptr_eq(&old, &new));
}

#[test]
fn registers_are_independent_of_each_other() {
    let first = match LocaleRegistry::new() {
        Ok(registry) => registry,
        Err(_) => panic!("the fallback locale is a valid tag"),
    };
    let second = match LocaleRegistry::new() {
        Ok(registry) => registry,
        Err(_) => panic!("the fallback locale is a valid tag"),
    };
    assert!(set_lang_from_tag(&first, "fr-FR").is_ok());
    assert_eq!(get_lang(&first).key(), "fr-FR");
    assert_eq!(get_lang(&second).key(), "en-US");
}

#[test]
fn second_tier_is_the_fallback_locale_unless_current_is_the_fallback() {
    assert_eq!(second_tier("en-US"), None);
    assert_eq!(second_tier(FALLBACK_LANG_KEY), None);
    assert_eq!(second_tier("fr-FR"), Some("en-US"));
    assert_eq!(second_tier("en"), Some("en-US"));
    assert_eq!(second_tier("en-us"), Some("en-US"));
    assert_eq!(second_tier(""), Some("en-US"));
}
