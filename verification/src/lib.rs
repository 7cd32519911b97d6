//! A verified core for an RSS feed aggregator: configuration validation,
//! normalization of parsed feed entries, per-source capping, failure-isolating
//! aggregation, stable date ordering, and plain-text rendering.
use vstd::prelude::*;

pub mod aggregate;
pub mod config;
pub mod fetch;
pub mod item;
pub mod render;
pub mod sort;

verus! {

/// Relies on alloc's String::push_str: appends the given slice to the end of
/// the string.
pub assume_specification[ String::push_str ](s: &mut String, other: &str)
    ensures
        final(s)@ == old(s)@ + other@,
;

} // verus!
