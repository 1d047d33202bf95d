//! Zero-allocation message lookup over perfect-hash tables, with Fluent
//! bundles as the formatting engine for messages that take arguments.
//!
//! A message key is resolved against the active locale first and against a
//! fixed fallback locale second. A message without variables is answered
//! straight from a static table as a borrowed string; only a message that
//! needs interpolation reaches the Fluent bundle of its locale.
//!
//! The library decides and never formats. A resolution runs in steps: a step
//! is the answer, or it names the engine to ask, and the reply of that
//! engine is handed back for the next step.

pub mod engine;
pub mod entry;
pub mod laws;
pub mod locale;
pub mod resolve;
pub mod store;
pub mod table;
mod text;

pub use engine::{value_pattern, ConcurrentFluentBundle, EngineReply};
pub use entry::CacheEntry;
pub use fluent_bundle::{FluentArgs, FluentResource};
pub use fluent_syntax;
pub use locale::{
    get_lang, parse_locale, set_lang, set_lang_from_tag, LocaleRegistry, LocaleState, ParseError,
    FALLBACK_LANG_KEY,
};
pub use phf;
pub use resolve::{
    lookup_dynamic, lookup_static, resolve_plain, resolve_with_args, Pending, Step, Tier,
};
pub use store::{table_lookup, CacheStore, MessageTable, StaticIndex};
pub use table::TableCache;
pub use unic_langid::LanguageIdentifier;
