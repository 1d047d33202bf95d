//! The policy of the resolver in one formula, and the laws that follow from
//! it. The steps of a resolution are shown to carry out the policy.

use std::borrow::Cow;
use std::sync::Arc;

use fluent_bundle::FluentArgs;
use vstd::prelude::*;

use crate::engine::EngineReply;
use crate::entry::CacheEntry;
use crate::locale::{LocaleState, FALLBACK_LANG_KEY};
use crate::resolve::{echo, fallback_step, first_step, next_step, Pending, Step, Tier};
use crate::store::CacheStore;

verus! {

/// What one tier yields: a static entry its own string, borrowed; a dynamic
/// entry what the reply of the tier's engine stands for; a missing entry
/// nothing.
pub open spec fn tier_value<'a>(entry: Option<CacheEntry>, reply: EngineReply<'a>) -> Option<
    Cow<'a, str>,
> {
    match entry {
        Some(CacheEntry::Static(text)) => Some(Cow::Borrowed(text)),
        Some(CacheEntry::Dynamic) => reply.yields(),
        None => None,
    }
}

/// The policy: the value of the current tier; without one, and unless the
/// current locale is the fallback locale, the value of the fallback tier;
/// without one, the key. `first_reply` is what the engine of the current
/// locale replies if it is asked, `second_reply` what that of the fallback
/// locale replies.
pub open spec fn policy<'a, C: CacheStore + ?Sized>(
    cache: &C,
    current_key: Seq<char>,
    key: &'a str,
    first_reply: EngineReply<'a>,
    second_reply: EngineReply<'a>,
) -> Cow<'a, str> {
    match tier_value(cache.entry(current_key, key@), first_reply) {
        Some(text) => text,
        None => if current_key == FALLBACK_LANG_KEY@ {
            Cow::Borrowed(key)
        } else {
            match tier_value(cache.entry(FALLBACK_LANG_KEY@, key@), second_reply) {
                Some(text) => text,
                None => Cow::Borrowed(key),
            }
        },
    }
}

/// The reply that goes to a waiting resolution: that of the engine it asks.
pub open spec fn reply_for<'a, 'g>(
    pending: Pending<'a, 'g>,
    first_reply: EngineReply<'a>,
    second_reply: EngineReply<'a>,
) -> EngineReply<'a> {
    match pending.tier {
        Tier::Current => first_reply,
        Tier::Fallback => second_reply,
    }
}

/// The answer that the steps of a resolution arrive at, each engine that is
/// asked giving its reply.
pub open spec fn answer<'a, 'g, C: CacheStore + ?Sized>(
    cache: &C,
    current: Arc<LocaleState>,
    key: &'a str,
    args: Option<&'g FluentArgs<'g>>,
    first_reply: EngineReply<'a>,
    second_reply: EngineReply<'a>,
) -> Cow<'a, str> {
    match first_step(cache, current, key, args) {
        Step::Answer(text) => text,
        Step::Ask(first) => match next_step(
            cache,
            first,
            reply_for(first, first_reply, second_reply),
        ) {
            Step::Answer(text) => text,
            Step::Ask(second) => match next_step(
                cache,
                second,
                reply_for(second, first_reply, second_reply),
            ) {
                Step::Answer(text) => text,
                Step::Ask(_) => Cow::Borrowed(key),
            },
        },
    }
}

/// The steps carry out the policy: whatever the engines reply, and with or
/// without arguments, a resolution arrives at the answer of the policy.
pub proof fn law_steps_follow_policy<'a, 'g, C: CacheStore + ?Sized>(
    cache: &C,
    current: Arc<LocaleState>,
    key: &'a str,
    args: Option<&'g FluentArgs<'g>>,
    first_reply: EngineReply<'a>,
    second_reply: EngineReply<'a>,
)
    ensures
        answer(cache, current, key, args, first_reply, second_reply) == policy(
            cache,
            current.key_text(),
            key,
            first_reply,
            second_reply,
        ),
{
}

/// An engine is asked for the message of the call, with the arguments of
/// the call, and in the locale of its tier; and no more than two engines
/// are asked: after the reply of the fallback engine the resolution is over,
/// and after that of the current engine it is over or asks the fallback
/// engine.
pub proof fn law_engines_are_asked_in_order<'a, 'g, C: CacheStore + ?Sized>(
    cache: &C,
    current: Arc<LocaleState>,
    key: &'a str,
    args: Option<&'g FluentArgs<'g>>,
    pending: Pending<'a, 'g>,
    reply: EngineReply<'a>,
)
    ensures
        first_step(cache, current, key, args) matches Step::Ask(asked) ==> asked.current == current
            && asked.key == key && asked.args == args,
        next_step(cache, pending, reply) matches Step::Ask(asked) ==> pending.tier == Tier::Current
            && asked.tier == Tier::Fallback && asked.current == pending.current && asked.key
            == pending.key && asked.args == pending.args && asked.lang_text()
            == FALLBACK_LANG_KEY@,
        pending.tier == Tier::Fallback ==> next_step(cache, pending, reply) is Answer,
{
}

/// The value of an engine is the answer: where the current locale holds a
/// dynamic entry and its engine's reply stands for a value, the resolution
/// gives that value, unchanged.
pub proof fn law_engine_value_is_the_answer<'a, C: CacheStore + ?Sized>(
    cache: &C,
    current_key: Seq<char>,
    key: &'a str,
    first_reply: EngineReply<'a>,
    second_reply: EngineReply<'a>,
    value: Cow<'a, str>,
)
    requires
        cache.entry(current_key, key@) == Some(CacheEntry::Dynamic),
        first_reply.yields() == Some(value),
    ensures
        policy(cache, current_key, key, first_reply, second_reply) == value,
{
}

/// A dynamic entry whose engine has no value passes on: the answer is that
/// of the fallback tier, or the key under the fallback locale. No engine, no
/// message, no pattern, a failure and a formatting with errors all count as
/// no value.
pub proof fn law_no_engine_value_passes_on<'a, C: CacheStore + ?Sized>(
    cache: &C,
    current_key: Seq<char>,
    key: &'a str,
    first_reply: EngineReply<'a>,
    second_reply: EngineReply<'a>,
)
    requires
        cache.entry(current_key, key@) == Some(CacheEntry::Dynamic),
        first_reply.yields() is None,
    ensures
        current_key == FALLBACK_LANG_KEY@ ==> policy(
            cache,
            current_key,
            key,
            first_reply,
            second_reply,
        ) == Cow::<'a, str>::Borrowed(key),
        current_key != FALLBACK_LANG_KEY@ ==> policy(
            cache,
            current_key,
            key,
            first_reply,
            second_reply,
        ) == (match tier_value(cache.entry(FALLBACK_LANG_KEY@, key@), second_reply) {
            Some(text) => text,
            None => Cow::<'a, str>::Borrowed(key),
        }),
        EngineReply::<'a>::NoEngine.yields() is None,
        EngineReply::<'a>::NoPattern.yields() is None,
        EngineReply::<'a>::Failed.yields() is None,
{
}

/// A key that the static index holds neither for the current locale nor for
/// the fallback locale resolves to itself, borrowed as it was handed in, and
/// no engine is asked.
pub proof fn law_absent_key_echoes<'a, 'g, C: CacheStore + ?Sized>(
    cache: &C,
    current: Arc<LocaleState>,
    key: &'a str,
    args: Option<&'g FluentArgs<'g>>,
    first_reply: EngineReply<'a>,
    second_reply: EngineReply<'a>,
)
    requires
        cache.entry(current.key_text(), key@) is None,
        cache.entry(FALLBACK_LANG_KEY@, key@) is None,
    ensures
        first_step(cache, current, key, args) == echo(key),
        policy(cache, current.key_text(), key, first_reply, second_reply) == Cow::<
            'a,
            str,
        >::Borrowed(key),
        policy(cache, current.key_text(), key, first_reply, second_reply)@ == key@,
{
}

/// A static entry in the current locale is the answer, whatever the fallback
/// locale holds and whatever arguments come with the call: the answer is the
/// entry's own string, borrowed, and no engine is asked.
pub proof fn law_static_hit_wins<'a, 'g, C: CacheStore + ?Sized>(
    cache: &C,
    current: Arc<LocaleState>,
    key: &'a str,
    args: Option<&'g FluentArgs<'g>>,
    ready: &'static str,
    first_reply: EngineReply<'a>,
    second_reply: EngineReply<'a>,
)
    requires
        cache.entry(current.key_text(), key@) == Some(CacheEntry::Static(ready)),
    ensures
        first_step(cache, current, key, args) == Step::<'a, 'g>::Answer(Cow::Borrowed(ready)),
        policy(cache, current.key_text(), key, first_reply, second_reply) == Cow::<
            'a,
            str,
        >::Borrowed(ready),
        policy(cache, current.key_text(), key, first_reply, second_reply)@ == ready@,
{
}

/// A key that the current locale lacks and the fallback locale holds as a
/// static entry resolves to that entry, provided the two locales differ.
pub proof fn law_fallback_static_answers<'a, 'g, C: CacheStore + ?Sized>(
    cache: &C,
    current: Arc<LocaleState>,
    key: &'a str,
    args: Option<&'g FluentArgs<'g>>,
    ready: &'static str,
)
    requires
        current.key_text() != FALLBACK_LANG_KEY@,
        cache.entry(current.key_text(), key@) is None,
        cache.entry(FALLBACK_LANG_KEY@, key@) == Some(CacheEntry::Static(ready)),
    ensures
        first_step(cache, current, key, args) == Step::<'a, 'g>::Answer(Cow::Borrowed(ready)),
{
}

/// Under the fallback locale there is one pass only: after the current tier
/// the key is echoed, the fallback tier is not looked into a second time,
/// and what its engine would reply does not enter.
pub proof fn law_fallback_locale_single_pass<'a, 'g, C: CacheStore + ?Sized>(
    cache: &C,
    current: Arc<LocaleState>,
    key: &'a str,
    args: Option<&'g FluentArgs<'g>>,
    first_reply: EngineReply<'a>,
    second_reply: EngineReply<'a>,
    other_reply: EngineReply<'a>,
)
    requires
        current.key_text() == FALLBACK_LANG_KEY@,
    ensures
        fallback_step(cache, current, key, args) == echo(key),
        policy(cache, current.key_text(), key, first_reply, second_reply) == policy(
            cache,
            current.key_text(),
            key,
            first_reply,
            other_reply,
        ),
        policy(cache, current.key_text(), key, first_reply, second_reply) == (match tier_value(
            cache.entry(current.key_text(), key@),
            first_reply,
        ) {
            Some(text) => text,
            None => Cow::<'a, str>::Borrowed(key),
        }),
{
}

/// Whether `cache` serves the table `table`: for each pair of locale key and
/// message key of the table, a static entry that holds the table's string.
pub open spec fn serves_table<C: CacheStore + ?Sized>(
    cache: &C,
    table: Map<(Seq<char>, Seq<char>), &'static str>,
) -> bool {
    forall|lang: Seq<char>, key: Seq<char>| #[trigger]
        table.contains_key((lang, key)) ==> cache.entry(lang, key) == Some(
            CacheEntry::Static(table[(lang, key)]),
        )
}

/// With a static index that serves a table of ready strings, every message
/// of the table resolves, under its own locale, to the string that the table
/// gives, borrowed.
pub proof fn law_table_text_is_served<'a, 'g, C: CacheStore + ?Sized>(
    cache: &C,
    table: Map<(Seq<char>, Seq<char>), &'static str>,
    current: Arc<LocaleState>,
    key: &'a str,
    args: Option<&'g FluentArgs<'g>>,
)
    requires
        serves_table(cache, table),
        table.contains_key((current.key_text(), key@)),
    ensures
        first_step(cache, current, key, args) == Step::<'a, 'g>::Answer(
            Cow::Borrowed(table[(current.key_text(), key@)]),
        ),
{
}

} // verus!
