//! A checker that keeps garbage-collected handles rooted.
//!
//! Types that hold a handle the collector may move or reclaim are marked
//! `must_root`. The checker classifies resolved types with a pure
//! predicate, and reports every struct or enum field, function signature,
//! cast and owned pattern binding where such a type would be held without
//! a rooting wrapper.
pub mod symbols;
pub mod ty;
pub mod predicate;
pub mod span;
pub mod pass;
pub mod registry;
pub mod laws;
