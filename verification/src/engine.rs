//! The formatting engine seen from the resolver. The resolver never formats:
//! it says which engine is to be asked, and it judges what came of the
//! asking. Here stand the pattern that an engine holds for a message, and
//! the reply that the asking brings back.

use std::borrow::Cow;

use fluent_bundle::bundle::FluentBundle;
use fluent_bundle::{FluentArgs, FluentError, FluentMessage, FluentResource};
use fluent_syntax::ast::Pattern;
use intl_memoizer::concurrent::IntlLangMemoizer;
use vstd::prelude::*;

verus! {

#[verifier::external_type_specification]
#[verifier::external_body]
#[verifier::reject_recursive_types(R)]
#[verifier::reject_recursive_types(M)]
pub struct ExFluentBundle<R, M>(FluentBundle<R, M>);

#[verifier::external_type_specification]
#[verifier::external_body]
pub struct ExFluentResource(FluentResource);

#[verifier::external_type_specification]
#[verifier::external_body]
pub struct ExIntlLangMemoizer(IntlLangMemoizer);

#[verifier::external_type_specification]
#[verifier::external_body]
pub struct ExFluentArgs<'args>(FluentArgs<'args>);

#[verifier::external_type_specification]
#[verifier::external_body]
pub struct ExFluentMessage<'m>(FluentMessage<'m>);

#[verifier::external_type_specification]
#[verifier::external_body]
pub struct ExFluentError(FluentError);

#[verifier::external_type_specification]
#[verifier::external_body]
#[verifier::reject_recursive_types(S)]
pub struct ExPattern<S>(Pattern<S>);

/// The formatting engine of one locale: a Fluent bundle that may be shared
/// between threads.
pub type ConcurrentFluentBundle<R> = FluentBundle<R, IntlLangMemoizer>;

/// The messages of a bundle: under each message id that
/// `FluentBundle::get_message` finds, the value pattern of that message, or
/// `None` for a message that has no value.
pub uninterp spec fn bundle_messages(bundle: ConcurrentFluentBundle<FluentResource>) -> Map<
    Seq<char>,
    Option<Pattern<&'static str>>,
>;

/// The value pattern of a message, as `FluentMessage::value` tells it.
pub uninterp spec fn message_pattern(message: FluentMessage<'_>) -> Option<Pattern<&'static str>>;

/// `FluentBundle::get_message` of `fluent_bundle`: the message filed under
/// `id`, if the bundle has one. A term or a function of that name is no
/// message.
#[verifier::external_body]
fn bundle_message<'b>(bundle: &'b ConcurrentFluentBundle<FluentResource>, id: &str) -> (found:
    Option<FluentMessage<'b>>)
    ensures
        found is Some <==> bundle_messages(*bundle).contains_key(id@),
        found matches Some(message) ==> message_pattern(message) == bundle_messages(*bundle)[id@],
{
    bundle.get_message(id)
}

/// `FluentMessage::value` of `fluent_bundle`: the value pattern of the
/// message, if it has one (a message may consist of attributes only).
#[verifier::external_body]
fn message_value<'b>(message: &FluentMessage<'b>) -> (pattern: Option<&'b Pattern<&'b str>>)
    ensures
        match pattern {
            Some(value) => message_pattern(*message) == Some(*value),
            None => message_pattern(*message) is None,
        },
{
    message.value()
}

/// The value pattern that `bundle` holds for message `key`: `None` where the
/// bundle has no such message, and where the message has no value.
pub open spec fn pattern_of(bundle: ConcurrentFluentBundle<FluentResource>, key: Seq<char>) -> Option<
    Pattern<&'static str>,
> {
    if bundle_messages(bundle).contains_key(key) {
        bundle_messages(bundle)[key]
    } else {
        None
    }
}

/// The value pattern of message `key` in `bundle`: what a formatter is to be
/// given.
pub fn value_pattern<'b>(bundle: &'b ConcurrentFluentBundle<FluentResource>, key: &str) -> (found:
    Option<&'b Pattern<&'b str>>)
    ensures
        match found {
            Some(pattern) => pattern_of(*bundle, key@) == Some(*pattern),
            None => pattern_of(*bundle, key@) is None,
        },
{
    match bundle_message(bundle, key) {
        Some(message) => message_value(&message),
        None => None,
    }
}

/// What came of asking the engine of a locale for a message.
pub enum EngineReply<'b> {
    /// The locale has no engine.
    NoEngine,
    /// The engine has no such message, or the message has no value pattern.
    NoPattern,
    /// The engine gave up while it formatted.
    Failed,
    /// The engine formatted the pattern to `text` and reported `errors` on
    /// the way.
    Formatted { text: Cow<'b, str>, errors: Vec<FluentError> },
}

impl<'b> EngineReply<'b> {
    /// The value that the reply stands for: the text of a formatting that
    /// went through without any error, and nothing else.
    pub open spec fn yields(self) -> Option<Cow<'b, str>> {
        match self {
            EngineReply::Formatted { text, errors } => if errors@.len() == 0 {
                Some(text)
            } else {
                None
            },
            _ => None,
        }
    }

    /// The value that the reply stands for.
    pub fn into_value(self) -> (value: Option<Cow<'b, str>>)
        ensures
            value == self.yields(),
    {
        match self {
            EngineReply::Formatted { text, errors } => {
                if errors.len() == 0 {
                    Some(text)
                } else {
                    None
                }
            },
            _ => None,
        }
    }
}

} // verus!
