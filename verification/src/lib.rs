//! A filesystem-change notification library: exclusion-pattern matching and
//! the event-loop decision logic for a directory watcher.
//!
//! Paths and patterns are handled as byte strings. A pattern is either a
//! literal (excludes a path when it occurs as a substring of the path's text)
//! or a single-wildcard prefix/suffix pair; a pattern with two or more
//! wildcard markers is malformed and excludes nothing.

use vstd::prelude::*;

mod bytes;
mod event;
mod matcher;
mod pattern;

pub use bytes::has_prefix;
pub use bytes::has_suffix;
pub use bytes::contains_seq;
pub use bytes::matches_at;
pub use bytes::starts_with_bytes;
pub use bytes::ends_with_bytes;
pub use bytes::contains_bytes;

pub use pattern::Pattern;
pub use pattern::PatternModel;
pub use pattern::classify;
pub use pattern::classify_model;
pub use pattern::excluded_by;
pub use pattern::no_star;
pub use pattern::two_or_more_stars;
pub use pattern::rel_path;
pub use pattern::try_relative;
pub use pattern::wildcard_excludes;
pub use pattern::pattern_excludes;
pub use pattern::lemma_literal_excludes_iff_substring;
pub use pattern::lemma_wildcard_exclusion;
pub use pattern::lemma_malformed_excludes_nothing;
pub use pattern::STAR;
pub use pattern::SLASH;

pub use event::EventKind;
pub use event::FsEvent;
pub use event::is_relevant;
pub use event::kind_is_relevant;

pub use matcher::MatcherStep;
pub use matcher::pattern_models;
pub use matcher::path_excluded_spec;
pub use matcher::event_included;
pub use matcher::event_passes;
pub use matcher::classify_patterns;
pub use matcher::path_excluded;
pub use matcher::event_qualifies;
pub use matcher::match_step;
pub use matcher::lemma_metadata_never_passes;
pub use matcher::lemma_clear_creation_passes;
pub use matcher::lemma_excluded_sole_path_blocks;

verus! {

/// Capacity of the bounded event queue between the watcher's delivery
/// callback and the event matcher. When the queue is full, further events
/// are dropped rather than blocking the delivery thread.
pub const EVENT_QUEUE_CAPACITY: usize = 1000;

} // verus!
