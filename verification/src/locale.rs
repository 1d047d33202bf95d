//! The active locale: immutable snapshots and the register that publishes them.

use std::sync::Arc;

use arc_swap::ArcSwap;
use unic_langid::{LanguageIdentifier, LanguageIdentifierError};
use vstd::prelude::*;

verus! {

/// The locale that is consulted when the active one cannot answer.
pub const FALLBACK_LANG_KEY: &'static str = "en-US";

#[verifier::external_type_specification]
#[verifier::external_body]
pub struct ExLanguageIdentifier(LanguageIdentifier);

#[verifier::external_type_specification]
#[verifier::external_body]
pub struct ExLanguageIdentifierError(LanguageIdentifierError);

/// The canonical text of a language identifier, as `unic_langid` prints it.
pub uninterp spec fn langid_text(id: LanguageIdentifier) -> Seq<char>;

/// What `unic_langid` makes of a language tag.
pub uninterp spec fn parsed_tag(tag: Seq<char>) -> Result<
    LanguageIdentifier,
    LanguageIdentifierError,
>;

/// `Display` of `unic_langid::LanguageIdentifier`, through `to_string`: the
/// subtags joined by hyphens. The text depends on the identifier alone.
#[verifier::external_body]
fn langid_to_string(id: &LanguageIdentifier) -> (text: String)
    ensures
        text@ == langid_text(*id),
{
    id.to_string()
}

/// `FromStr` of `unic_langid::LanguageIdentifier`, through `str::parse`: the
/// tag is split at `-` and `_` and each subtag checked. The outcome depends
/// on the tag alone.
#[verifier::external_body]
fn langid_from_str(tag: &str) -> (r: Result<LanguageIdentifier, LanguageIdentifierError>)
    ensures
        r == parsed_tag(tag@),
{
    tag.parse::<LanguageIdentifier>()
}

/// A language tag that is no valid locale identifier.
#[derive(Debug)]
pub struct ParseError {
    /// What the tag parser objected to.
    pub cause: LanguageIdentifierError,
}

/// Parses a language tag such as `"fr-FR"`.
pub fn parse_locale(tag: &str) -> (r: Result<LanguageIdentifier, ParseError>)
    ensures
        r == match parsed_tag(tag@) {
            Ok(id) => Ok::<LanguageIdentifier, ParseError>(id),
            Err(cause) => Err((ParseError { cause })),
        },
{
    match langid_from_str(tag) {
        Ok(id) => Ok(id),
        Err(cause) => Err(ParseError { cause }),
    }
}

/// One immutable snapshot of the active locale.
pub struct LocaleState {
    id: LanguageIdentifier,
    key: String,
}

impl LocaleState {
    /// Every snapshot carries the canonical text of its own identifier.
    #[verifier::type_invariant]
    spec fn keyed_by_id(self) -> bool {
        self.key@ == langid_text(self.id)
    }

    /// The identifier of the snapshot.
    pub closed spec fn lang(self) -> LanguageIdentifier {
        self.id
    }

    /// The table key of the snapshot.
    pub closed spec fn key_text(self) -> Seq<char> {
        self.key@
    }

    /// The snapshot for `id`.
    pub fn new(id: LanguageIdentifier) -> (state: LocaleState)
        ensures
            state.lang() == id,
            state.key_text() == langid_text(id),
    {
        let key = langid_to_string(&id);
        LocaleState { id, key }
    }

    /// The parsed identifier, for example `en-US`.
    pub fn id(&self) -> (id: &LanguageIdentifier)
        ensures
            *id == self.lang(),
    {
        &self.id
    }

    /// The key under which the static index and the bundle index file this
    /// locale: the canonical text of the identifier.
    pub fn key(&self) -> (key: &str)
        ensures
            key@ == self.key_text(),
            key@ == langid_text(self.lang()),
    {
        proof {
            use_type_invariant(self);
        }
        self.key.as_str()
    }
}

/// Holder of the active locale. Readers take snapshots without locking, and a
/// writer publishes a whole new snapshot in one atomic step.
#[verifier::external_body]
pub struct LocaleRegistry {
    current: ArcSwap<LocaleState>,
}

/// `ArcSwap::new` of `arc_swap`: a register that holds `state`.
#[verifier::external_body]
fn registry_holding(state: Arc<LocaleState>) -> LocaleRegistry {
    LocaleRegistry { current: ArcSwap::new(state) }
}

/// `ArcSwapAny::store` of `arc_swap`: replaces the snapshot that later loads
/// yield. Other threads may store as well, so nothing is claimed here about
/// what a later load returns.
#[verifier::external_body]
fn registry_store(registry: &LocaleRegistry, state: Arc<LocaleState>) {
    registry.current.store(state)
}

/// `ArcSwapAny::load_full` of `arc_swap`: a counted handle to the snapshot
/// that the register holds at this moment.
#[verifier::external_body]
fn registry_load(registry: &LocaleRegistry) -> Arc<LocaleState> {
    registry.current.load_full()
}

impl LocaleRegistry {
    /// A register whose first snapshot is `lang`.
    pub fn with_locale(lang: LanguageIdentifier) -> LocaleRegistry {
        registry_holding(Arc::new(LocaleState::new(lang)))
    }

    /// A register that starts at the fallback locale.
    pub fn new() -> (r: Result<LocaleRegistry, ParseError>)
        ensures
            r is Ok <==> parsed_tag(FALLBACK_LANG_KEY@) is Ok,
            r matches Err(e) ==> parsed_tag(FALLBACK_LANG_KEY@) == Err::<
                LanguageIdentifier,
                LanguageIdentifierError,
            >(e.cause),
    {
        match parse_locale(FALLBACK_LANG_KEY) {
            Ok(lang) => Ok(LocaleRegistry::with_locale(lang)),
            Err(e) => Err(e),
        }
    }
}

/// Makes `lang` the active locale: builds its snapshot and publishes it in
/// one atomic step. Resolutions that start afterwards work on the new
/// snapshot; one that already holds a snapshot keeps it.
pub fn set_lang(registry: &LocaleRegistry, lang: LanguageIdentifier) {
    let state = LocaleState::new(lang);
    registry_store(registry, Arc::new(state));
}

/// Makes the locale that `tag` names the active one. A malformed tag is
/// reported and leaves the register as it was.
pub fn set_lang_from_tag(registry: &LocaleRegistry, tag: &str) -> (r: Result<(), ParseError>)
    ensures
        r is Ok <==> parsed_tag(tag@) is Ok,
        r matches Err(e) ==> parsed_tag(tag@) == Err::<LanguageIdentifier, LanguageIdentifierError>(
            e.cause,
        ),
{
    match parse_locale(tag) {
        Ok(lang) => {
            set_lang(registry, lang);
            Ok(())
        },
        Err(e) => Err(e),
    }
}

/// A counted handle to the snapshot that is active at the moment of the call.
pub fn get_lang(registry: &LocaleRegistry) -> (state: Arc<LocaleState>)
    ensures
        state.key_text() == langid_text(state.lang()),
{
    let state = registry_load(registry);
    proof {
        use_type_invariant(&*state);
    }
    state
}

} // verus!
