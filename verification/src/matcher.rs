//! The matcher's decision logic: which events pass the exclusion patterns
//! and the relevance rule, and what the event loop does at each step.

use vstd::prelude::*;
use crate::event::EventKind;
use crate::event::FsEvent;
use crate::event::is_relevant;
use crate::event::kind_is_relevant;
use crate::pattern::Pattern;
use crate::pattern::PatternModel;
use crate::pattern::classify;
use crate::pattern::classify_model;
use crate::pattern::excluded_by;
use crate::pattern::pattern_excludes;

verus! {

/// The models of a sequence of classified patterns.
pub open spec fn pattern_models(pats: Seq<Pattern>) -> Seq<PatternModel> {
    pats.map_values(|p: Pattern| p@)
}

/// Some pattern excludes `path`.
pub open spec fn path_excluded_spec(path: Seq<u8>, pats: Seq<PatternModel>, root: Seq<u8>) -> bool {
    exists|i: int| 0 <= i < pats.len() && excluded_by(pats[i], path, root)
}

/// At least one of the event's paths is excluded by no pattern.
pub open spec fn event_included(paths: Seq<Seq<u8>>, pats: Seq<PatternModel>, root: Seq<u8>) -> bool {
    exists|j: int| 0 <= j < paths.len() && !path_excluded_spec(paths[j], pats, root)
}

/// The event makes the matcher return: it is included (some path clears
/// every pattern) and its kind is relevant.
pub open spec fn event_passes(
    kind: EventKind,
    paths: Seq<Seq<u8>>,
    pats: Seq<PatternModel>,
    root: Seq<u8>,
) -> bool {
    event_included(paths, pats, root) && is_relevant(kind)
}

/// Classify a whole exclusion set of raw pattern texts, once per matching
/// call.
pub fn classify_patterns(raw: &Vec<Vec<u8>>) -> (r: Vec<Pattern>)
    ensures
        r@.len() == raw@.len(),
        forall|i: int| 0 <= i < raw@.len() ==> pattern_models(r@)[i] == classify_model(raw@[i]@),
{
    let mut out: Vec<Pattern> = Vec::new();
    let mut i: usize = 0;
    while i < raw.len()
        invariant
            i <= raw@.len(),
            out@.len() == i,
            forall|k: int| 0 <= k < i ==> out@[k]@ == classify_model(raw@[k]@),
        decreases raw@.len() - i,
    {
        let p = classify(&raw[i]);
        out.push(p);
        i += 1;
    }
    proof {
        assert(forall|k: int|
            0 <= k < raw@.len() ==> pattern_models(out@)[k] == out@[k]@);
    }
    out
}

/// Whether some pattern in `pats` excludes `path`, relative to `root`.
pub fn path_excluded(path: &Vec<u8>, pats: &Vec<Pattern>, root: &Vec<u8>) -> (r: bool)
    ensures
        r == path_excluded_spec(path@, pattern_models(pats@), root@),
{
    let mut i: usize = 0;
    while i < pats.len()
        invariant
            i <= pats@.len(),
            forall|k: int| 0 <= k < i ==> !excluded_by(pattern_models(pats@)[k], path@, root@),
        decreases pats@.len() - i,
    {
        if pattern_excludes(&pats[i], path, root) {
            assert(excluded_by(pattern_models(pats@)[i as int], path@, root@));
            return true;
        }
        i += 1;
    }
    false
}

/// Whether the event qualifies: at least one of its paths clears every
/// pattern, and its kind is relevant.
pub fn event_qualifies(ev: &FsEvent, pats: &Vec<Pattern>, root: &Vec<u8>) -> (r: bool)
    ensures
        r == event_passes(ev.kind, ev.paths.deep_view(), pattern_models(pats@), root@),
{
    let mut included = false;
    let mut j: usize = 0;
    while !included && j < ev.paths.len()
        invariant
            j <= ev.paths@.len(),
            !included ==> forall|k: int|
                0 <= k < j ==> path_excluded_spec(
                    ev.paths.deep_view()[k],
                    pattern_models(pats@),
                    root@,
                ),
            included ==> event_included(ev.paths.deep_view(), pattern_models(pats@), root@),
        decreases ev.paths@.len() - j,
    {
        proof {
            assert(ev.paths.deep_view()[j as int] == ev.paths@[j as int]@);
        }
        if !path_excluded(&ev.paths[j], pats, root) {
            included = true;
        }
        j += 1;
    }
    proof {
        assert(ev.paths.deep_view().len() == ev.paths@.len());
        if !included {
            assert(!event_included(ev.paths.deep_view(), pattern_models(pats@), root@));
        }
    }
    included && kind_is_relevant(ev.kind)
}

/// What the event loop does after one receive attempt on the queue.
#[derive(Clone, Copy, Debug, PartialEq, Eq, Structural)]
pub enum MatcherStep {
    /// A qualifying event arrived: the matcher returns to the caller.
    Finish,
    /// A non-qualifying event arrived: poll the queue again at once.
    Poll,
    /// The queue yielded nothing (producer side closed, no event pending):
    /// wait the retry interval, then poll again. The matcher never treats
    /// this as a terminal signal.
    SleepAndPoll,
}

/// One step of the matcher's loop: decide from the outcome of a receive
/// attempt whether to return, poll again, or sleep and poll again.
pub fn match_step(received: Option<FsEvent>, pats: &Vec<Pattern>, root: &Vec<u8>) -> (r: MatcherStep)
    ensures
        received is None ==> r == MatcherStep::SleepAndPoll,
        received matches Some(ev) ==> r == (if event_passes(
            ev.kind,
            ev.paths.deep_view(),
            pattern_models(pats@),
            root@,
        ) {
            MatcherStep::Finish
        } else {
            MatcherStep::Poll
        }),
{
    match received {
        None => MatcherStep::SleepAndPoll,
        Some(ev) => {
            if event_qualifies(&ev, pats, root) {
                MatcherStep::Finish
            } else {
                MatcherStep::Poll
            }
        }
    }
}

/// An event whose kind is a metadata-only change never passes the matcher,
/// whatever its paths, the patterns, and the root.
pub proof fn lemma_metadata_never_passes(paths: Seq<Seq<u8>>, pats: Seq<PatternModel>, root: Seq<u8>)
    ensures
        !event_passes(EventKind::ModifyMetadata, paths, pats, root),
{
}

/// A file-creation event one of whose paths is excluded by no pattern passes
/// the matcher.
pub proof fn lemma_clear_creation_passes(
    paths: Seq<Seq<u8>>,
    pats: Seq<PatternModel>,
    root: Seq<u8>,
    j: int,
)
    requires
        0 <= j < paths.len(),
        forall|i: int| 0 <= i < pats.len() ==> !excluded_by(pats[i], paths[j], root),
    ensures
        event_passes(EventKind::CreateFile, paths, pats, root),
{
    assert(!path_excluded_spec(paths[j], pats, root));
}

/// An event whose only path is excluded by a literal pattern never passes
/// the matcher, whatever its kind — a removal included.
pub proof fn lemma_excluded_sole_path_blocks(
    kind: EventKind,
    paths: Seq<Seq<u8>>,
    pats: Seq<PatternModel>,
    root: Seq<u8>,
    i: int,
    l: Seq<u8>,
)
    requires
        paths.len() == 1,
        0 <= i < pats.len(),
        pats[i] == PatternModel::Literal(l),
        crate::bytes::contains_seq(paths[0], l),
    ensures
        !event_passes(kind, paths, pats, root),
{
    assert(excluded_by(pats[i], paths[0], root));
    assert(path_excluded_spec(paths[0], pats, root));
    assert(forall|j: int| 0 <= j < paths.len() ==> path_excluded_spec(paths[j], pats, root));
}

} // verus!
