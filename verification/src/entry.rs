//! The tagged entry that a static index stores for each message.

use vstd::prelude::*;

verus! {

/// What a static index knows about one message in one locale.
#[derive(Debug, Clone, Copy, PartialEq, Eq)]
pub enum CacheEntry {
    /// The message has no variables: the payload is its final text, resident
    /// in the program's read-only data.
    Static(&'static str),
    /// The message has variables or selectors: its text comes from the
    /// formatting engine of the locale.
    Dynamic,
}

} // verus!
