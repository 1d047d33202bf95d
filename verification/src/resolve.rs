//! The resolver: current locale first, fallback locale second, the key
//! itself last.
//!
//! A resolution is run in steps. A step either gives the answer or names the
//! engine that is to be asked; the caller asks it and hands the reply back.
//! The resolver itself looks only into the static index.

use std::borrow::Cow;
use std::sync::Arc;

use fluent_bundle::FluentArgs;
use vstd::prelude::*;

use crate::engine::EngineReply;
use crate::entry::CacheEntry;
use crate::locale::{get_lang, langid_text, LocaleRegistry, LocaleState, FALLBACK_LANG_KEY};
use crate::store::CacheStore;
use crate::text::same_text;

verus! {

/// The two tiers that can answer.
#[derive(Debug, Clone, Copy, PartialEq, Eq)]
pub enum Tier {
    /// The locale of the snapshot under which the resolution runs.
    Current,
    /// The fallback locale.
    Fallback,
}

/// A resolution that waits for the reply of an engine.
pub struct Pending<'a, 'g> {
    /// The snapshot under which the resolution runs.
    pub current: Arc<LocaleState>,
    /// The message that is being resolved.
    pub key: &'a str,
    /// The arguments of the call, if it has any.
    pub args: Option<&'g FluentArgs<'g>>,
    /// The tier whose engine is to be asked.
    pub tier: Tier,
}

/// One step of a resolution.
pub enum Step<'a, 'g> {
    /// The resolution is over, and this is its answer.
    Answer(Cow<'a, str>),
    /// The engine of `Pending::lang` is to be asked for `Pending::key` with
    /// `Pending::args`; `Pending::resume` takes its reply.
    Ask(Pending<'a, 'g>),
}

/// The step that echoes the key, borrowed as it stands.
pub open spec fn echo<'a, 'g>(key: &'a str) -> Step<'a, 'g> {
    Step::Answer(Cow::Borrowed(key))
}

/// The step that a tier takes, given what the static index holds for the
/// message there: a static entry answers with its own string, borrowed; a
/// dynamic entry has the tier's engine asked; a missing entry leads to
/// `otherwise`.
pub open spec fn tier_step<'a, 'g>(
    entry: Option<CacheEntry>,
    pending: Pending<'a, 'g>,
    otherwise: Step<'a, 'g>,
) -> Step<'a, 'g> {
    match entry {
        Some(CacheEntry::Static(text)) => Step::Answer(Cow::Borrowed(text)),
        Some(CacheEntry::Dynamic) => Step::Ask(pending),
        None => otherwise,
    }
}

/// The step after the current locale has given no answer: under the
/// fallback locale there is no second pass and the key is echoed; else the
/// fallback tier takes its step, and echoes the key where it holds nothing.
pub open spec fn fallback_step<'a, 'g, C: CacheStore + ?Sized>(
    cache: &C,
    current: Arc<LocaleState>,
    key: &'a str,
    args: Option<&'g FluentArgs<'g>>,
) -> Step<'a, 'g> {
    if current.key_text() == FALLBACK_LANG_KEY@ {
        echo(key)
    } else {
        tier_step(
            cache.entry(FALLBACK_LANG_KEY@, key@),
            (Pending { current, key, args, tier: Tier::Fallback }),
            echo(key),
        )
    }
}

/// The first step of a resolution: that of the current locale, which leads
/// on to `fallback_step` where it holds nothing.
pub open spec fn first_step<'a, 'g, C: CacheStore + ?Sized>(
    cache: &C,
    current: Arc<LocaleState>,
    key: &'a str,
    args: Option<&'g FluentArgs<'g>>,
) -> Step<'a, 'g> {
    tier_step(
        cache.entry(current.key_text(), key@),
        (Pending { current, key, args, tier: Tier::Current }),
        fallback_step(cache, current, key, args),
    )
}

/// The step that follows the reply of an engine: its value is the answer;
/// without a value the current tier leads on to `fallback_step`, and the
/// fallback tier echoes the key.
pub open spec fn next_step<'a, 'g, C: CacheStore + ?Sized>(
    cache: &C,
    pending: Pending<'a, 'g>,
    reply: EngineReply<'a>,
) -> Step<'a, 'g> {
    match reply.yields() {
        Some(text) => Step::Answer(text),
        None => match pending.tier {
            Tier::Current => fallback_step(cache, pending.current, pending.key, pending.args),
            Tier::Fallback => echo(pending.key),
        },
    }
}

/// The locale to consult after `current_key` has given no answer: the
/// fallback locale, unless `current_key` is the fallback locale itself, in
/// which case there is no second pass.
pub fn second_tier(current_key: &str) -> (tier: Option<&'static str>)
    ensures
        tier == (if current_key@ == FALLBACK_LANG_KEY@ {
            None
        } else {
            Some(FALLBACK_LANG_KEY)
        }),
{
    if same_text(current_key, FALLBACK_LANG_KEY) {
        None
    } else {
        Some(FALLBACK_LANG_KEY)
    }
}

/// The step of the fallback tier, taken after the current locale gave no
/// answer.
fn step_to_fallback<'a, 'g, C: CacheStore + ?Sized>(
    cache: &C,
    current: Arc<LocaleState>,
    key: &'a str,
    args: Option<&'g FluentArgs<'g>>,
) -> (step: Step<'a, 'g>)
    ensures
        step == fallback_step(cache, current, key, args),
{
    match second_tier(current.key()) {
        None => Step::Answer(Cow::Borrowed(key)),
        Some(fallback_key) => match cache.get_entry(fallback_key, key) {
            Some(CacheEntry::Static(text)) => Step::Answer(Cow::Borrowed(text)),
            Some(CacheEntry::Dynamic) => Step::Ask(
                Pending { current, key, args, tier: Tier::Fallback },
            ),
            None => Step::Answer(Cow::Borrowed(key)),
        },
    }
}

/// The first step of a resolution under the snapshot `current`.
fn begin<'a, 'g, C: CacheStore + ?Sized>(
    cache: &C,
    current: Arc<LocaleState>,
    key: &'a str,
    args: Option<&'g FluentArgs<'g>>,
) -> (step: Step<'a, 'g>)
    ensures
        step == first_step(cache, current, key, args),
{
    match cache.get_entry(current.key(), key) {
        Some(CacheEntry::Static(text)) => Step::Answer(Cow::Borrowed(text)),
        Some(CacheEntry::Dynamic) => Step::Ask(Pending { current, key, args, tier: Tier::Current }),
        None => step_to_fallback(cache, current, key, args),
    }
}

impl<'a, 'g> Pending<'a, 'g> {
    /// The key of the locale whose engine is to be asked.
    pub open spec fn lang_text(self) -> Seq<char> {
        match self.tier {
            Tier::Current => self.current.key_text(),
            Tier::Fallback => FALLBACK_LANG_KEY@,
        }
    }

    /// The key of the locale whose engine is to be asked.
    pub fn lang(&self) -> (lang: &str)
        ensures
            lang@ == self.lang_text(),
    {
        match self.tier {
            Tier::Current => self.current.key(),
            Tier::Fallback => FALLBACK_LANG_KEY,
        }
    }

    /// Takes the reply of the engine and makes the next step.
    pub fn resume<C: CacheStore + ?Sized>(self, reply: EngineReply<'a>, cache: &C) -> (step: Step<
        'a,
        'g,
    >)
        ensures
            step == next_step(cache, self, reply),
    {
        match reply.into_value() {
            Some(text) => Step::Answer(text),
            None => match self.tier {
                Tier::Current => step_to_fallback(cache, self.current, self.key, self.args),
                Tier::Fallback => Step::Answer(Cow::Borrowed(self.key)),
            },
        }
    }
}

/// Starts to resolve `key` under the snapshot `current`, for a call without
/// arguments.
pub fn resolve_plain<'a, C: CacheStore + ?Sized>(
    current: Arc<LocaleState>,
    cache: &C,
    key: &'a str,
) -> (step: Step<'a, 'static>)
    ensures
        step == first_step(cache, current, key, None::<&'static FluentArgs<'static>>),
{
    begin(cache, current, key, None)
}

/// Starts to resolve `key` under the snapshot `current`, for a call with
/// `args`. They go to the engine where the message is dynamic; a static
/// message ignores them.
pub fn resolve_with_args<'a, 'g, C: CacheStore + ?Sized>(
    current: Arc<LocaleState>,
    cache: &C,
    key: &'a str,
    args: &'g FluentArgs<'g>,
) -> (step: Step<'a, 'g>)
    ensures
        step == first_step(cache, current, key, Some(args)),
{
    begin(cache, current, key, Some(args))
}

/// Starts to retrieve a localized message without arguments. The active
/// locale is read from `registry` once, and the whole resolution runs under
/// that one snapshot.
pub fn lookup_static<'a, C: CacheStore + ?Sized>(
    registry: &LocaleRegistry,
    cache: &C,
    key: &'a str,
) -> (step: Step<'a, 'static>)
    ensures
        exists|current: Arc<LocaleState>|
            current.key_text() == langid_text(current.lang()) && step == #[trigger] first_step(
                cache,
                current,
                key,
                None::<&'static FluentArgs<'static>>,
            ),
{
    let current = get_lang(registry);
    let step = resolve_plain(current, cache, key);
    assert(step == first_step(cache, current, key, None::<&'static FluentArgs<'static>>));
    step
}

/// Starts to retrieve a localized message with arguments. The active locale
/// is read from `registry` once, and the whole resolution runs under that
/// one snapshot.
pub fn lookup_dynamic<'a, 'g, C: CacheStore + ?Sized>(
    registry: &LocaleRegistry,
    cache: &C,
    key: &'a str,
    args: &'g FluentArgs<'g>,
) -> (step: Step<'a, 'g>)
    ensures
        exists|current: Arc<LocaleState>|
            current.key_text() == langid_text(current.lang()) && step == #[trigger] first_step(
                cache,
                current,
                key,
                Some(args),
            ),
{
    let current = get_lang(registry);
    let step = resolve_with_args(current, cache, key, args);
    assert(step == first_step(cache, current, key, Some(args)));
    step
}

} // verus!
