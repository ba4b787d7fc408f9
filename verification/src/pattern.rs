//! Exclusion patterns: classification of pattern text and the rules that
//! decide whether a pattern excludes a given event path.

use vstd::prelude::*;
use crate::bytes::contains_bytes;
use crate::bytes::contains_seq;
use crate::bytes::ends_with_bytes;
use crate::bytes::has_prefix;
use crate::bytes::has_suffix;
use crate::bytes::starts_with_bytes;

verus! {

/// The wildcard marker byte (`*`).
pub const STAR: u8 = 42;

/// The path separator byte (`/`).
pub const SLASH: u8 = 47;

/// A classified exclusion pattern.
///
/// `Literal` excludes a path when the pattern text occurs as a substring of
/// the path text. `PrefixSuffix` is a pattern that held exactly one wildcard
/// marker, split into the part before and the part after the marker.
/// `Malformed` is a pattern that held two or more wildcard markers; it
/// excludes nothing.
#[derive(Debug, Clone)]
pub enum Pattern {
    Literal(Vec<u8>),
    PrefixSuffix(Vec<u8>, Vec<u8>),
    Malformed,
}

/// The mathematical model of a classified pattern.
pub enum PatternModel {
    Literal(Seq<u8>),
    PrefixSuffix(Seq<u8>, Seq<u8>),
    Malformed,
}

impl View for Pattern {
    type V = PatternModel;

    open spec fn view(&self) -> PatternModel {
        match self {
            Pattern::Literal(l) => PatternModel::Literal(l@),
            Pattern::PrefixSuffix(pre, suf) => PatternModel::PrefixSuffix(pre@, suf@),
            Pattern::Malformed => PatternModel::Malformed,
        }
    }
}

/// No wildcard marker occurs in `s`.
pub open spec fn no_star(s: Seq<u8>) -> bool {
    forall|i: int| 0 <= i < s.len() ==> s[i] != STAR
}

/// At least two wildcard markers occur in `p`.
pub open spec fn two_or_more_stars(p: Seq<u8>) -> bool {
    exists|i: int, j: int| 0 <= i < j < p.len() && p[i] == STAR && p[j] == STAR
}

/// The model of classifying raw pattern text: no marker gives a literal,
/// exactly one marker splits the text at the marker, more markers give a
/// malformed pattern.
pub open spec fn classify_model(p: Seq<u8>) -> PatternModel {
    if no_star(p) {
        PatternModel::Literal(p)
    } else if two_or_more_stars(p) {
        PatternModel::Malformed
    } else {
        let k = choose|k: int| 0 <= k < p.len() && p[k] == STAR;
        PatternModel::PrefixSuffix(p.take(k), p.skip(k + 1))
    }
}

/// The event path rendered relative to `root`, where that is possible.
///
/// A path is under the root when it equals the root or continues it across a
/// path-separator boundary; otherwise there is no relative form. An empty
/// root leaves the path unchanged.
pub open spec fn rel_path(path: Seq<u8>, root: Seq<u8>) -> Option<Seq<u8>> {
    if root.len() == 0 {
        Some(path)
    } else if path == root {
        Some(Seq::<u8>::empty())
    } else if has_prefix(path, root) && path.len() > root.len() {
        if root[root.len() - 1] == SLASH {
            Some(path.skip(root.len() as int))
        } else if path[root.len() as int] == SLASH {
            Some(path.skip(root.len() as int + 1))
        } else {
            None
        }
    } else {
        None
    }
}

/// A single-wildcard pattern with prefix `pre` and suffix `suf` excludes
/// `path`: on the root-relative form it requires the prefix at the start and
/// the suffix at the end; where the path has no relative form, the prefix may
/// occur anywhere but the suffix must still end the raw path text.
pub open spec fn wildcard_excludes(pre: Seq<u8>, suf: Seq<u8>, path: Seq<u8>, root: Seq<u8>) -> bool {
    match rel_path(path, root) {
        Some(rel) => has_prefix(rel, pre) && has_suffix(rel, suf),
        None => contains_seq(path, pre) && has_suffix(path, suf),
    }
}

/// Whether a classified pattern excludes `path`, relative to `root`.
pub open spec fn excluded_by(pat: PatternModel, path: Seq<u8>, root: Seq<u8>) -> bool {
    match pat {
        PatternModel::Literal(l) => contains_seq(path, l),
        PatternModel::PrefixSuffix(pre, suf) => wildcard_excludes(pre, suf, path, root),
        PatternModel::Malformed => false,
    }
}

/// A literal pattern excludes a path exactly when the pattern text occurs as
/// a substring of the path text.
pub proof fn lemma_literal_excludes_iff_substring(l: Seq<u8>, path: Seq<u8>, root: Seq<u8>)
    ensures
        excluded_by(PatternModel::Literal(l), path, root) <==> contains_seq(path, l),
{
}

/// A single-wildcard pattern excludes a path under the root exactly when the
/// relative form starts with the prefix and ends with the suffix; it excludes
/// a path that is not under the root exactly when the raw path contains the
/// prefix and ends with the suffix.
pub proof fn lemma_wildcard_exclusion(pre: Seq<u8>, suf: Seq<u8>, path: Seq<u8>, root: Seq<u8>)
    ensures
        forall|rel: Seq<u8>|
            rel_path(path, root) == Some(rel) ==> (excluded_by(
                PatternModel::PrefixSuffix(pre, suf),
                path,
                root,
            ) <==> has_prefix(rel, pre) && has_suffix(rel, suf)),
        rel_path(path, root) is None ==> (excluded_by(
            PatternModel::PrefixSuffix(pre, suf),
            path,
            root,
        ) <==> contains_seq(path, pre) && has_suffix(path, suf)),
{
}

/// Pattern text holding two or more wildcard markers classifies as malformed
/// and never excludes any path.
pub proof fn lemma_malformed_excludes_nothing(p: Seq<u8>, path: Seq<u8>, root: Seq<u8>)
    requires
        two_or_more_stars(p),
    ensures
        !excluded_by(classify_model(p), path, root),
{
    let (i, j) = choose|i: int, j: int| 0 <= i < j < p.len() && p[i] == STAR && p[j] == STAR;
    assert(p[i] == STAR);
    assert(!no_star(p));
}

/// Position of the first wildcard marker in `p`, if any.
fn find_star(p: &Vec<u8>, from: usize) -> (r: Option<usize>)
    requires
        from <= p@.len(),
    ensures
        match r {
            Some(k) => from <= k < p@.len() && p@[k as int] == STAR && forall|j: int|
                from <= j < k ==> p@[j] != STAR,
            None => forall|j: int| from <= j < p@.len() ==> p@[j] != STAR,
        },
{
    let mut i: usize = from;
    while i < p.len()
        invariant
            from <= i <= p@.len(),
            forall|j: int| from <= j < i ==> p@[j] != STAR,
        decreases p@.len() - i,
    {
        if p[i] == STAR {
            return Some(i);
        }
        i += 1;
    }
    None
}

/// Copy of the bytes of `p` from position `from` up to (not including) `to`.
fn copy_range(p: &Vec<u8>, from: usize, to: usize) -> (r: Vec<u8>)
    requires
        from <= to <= p@.len(),
    ensures
        r@ == p@.subrange(from as int, to as int),
{
    let mut out: Vec<u8> = Vec::new();
    let mut i: usize = from;
    while i < to
        invariant
            from <= i <= to <= p@.len(),
            out@ == p@.subrange(from as int, i as int),
        decreases to - i,
    {
        out.push(p[i]);
        assert(out@ =~= p@.subrange(from as int, i + 1));
        i += 1;
    }
    out
}

/// Classify raw pattern text into a literal, a single-wildcard
/// prefix/suffix pair, or a malformed pattern.
pub fn classify(p: &Vec<u8>) -> (r: Pattern)
    ensures
        r@ == classify_model(p@),
{
    match find_star(p, 0) {
        None => {
            assert(no_star(p@));
            let l = copy_range(p, 0, p.len());
            assert(l@ =~= p@);
            Pattern::Literal(l)
        }
        Some(k) => {
            let n: usize = p.len();
            assert(k < n);
            match find_star(p, k + 1) {
                Some(k2) => {
                    assert(two_or_more_stars(p@)) by {
                        assert(0 <= k < k2 < p@.len() && p@[k as int] == STAR
                            && p@[k2 as int] == STAR);
                    }
                    assert(!no_star(p@));
                    Pattern::Malformed
                }
                None => {
                    assert(!no_star(p@));
                    assert(!two_or_more_stars(p@)) by {
                        assert(forall|i: int, j: int|
                            0 <= i < j < p@.len() && p@[i] == STAR ==> p@[j] != STAR);
                    }
                    proof {
                        let kc = choose|kc: int| 0 <= kc < p@.len() && p@[kc] == STAR;
                        if kc < k {
                            assert(p@[kc] != STAR);
                        }
                        if kc > k {
                            assert(p@[kc] != STAR);
                        }
                        assert(kc == k);
                    }
                    let pre = copy_range(p, 0, k);
                    let suf = copy_range(p, k + 1, p.len());
                    assert(pre@ =~= p@.take(k as int));
                    assert(suf@ =~= p@.skip(k + 1));
                    Pattern::PrefixSuffix(pre, suf)
                }
            }
        }
    }
}

/// The root-relative form of `path`, where it exists.
pub fn try_relative(path: &Vec<u8>, root: &Vec<u8>) -> (r: Option<Vec<u8>>)
    ensures
        match r {
            Some(v) => rel_path(path@, root@) == Some(v@),
            None => rel_path(path@, root@) is None,
        },
{
    if root.len() == 0 {
        let v = copy_range(path, 0, path.len());
        assert(v@ =~= path@);
        return Some(v);
    }
    if !starts_with_bytes(path, root) {
        proof {
            if path@ == root@ {
                assert(path@.subrange(0, root@.len() as int) =~= root@);
            }
        }
        return None;
    }
    if path.len() == root.len() {
        assert(path@ =~= root@);
        return Some(Vec::new());
    }
    assert(path@.len() > root@.len());
    assert(path@ != root@) by {
        assert(path@.len() != root@.len());
    }
    if root[root.len() - 1] == SLASH {
        Some(copy_range(path, root.len(), path.len()))
    } else if path[root.len()] == SLASH {
        Some(copy_range(path, root.len() + 1, path.len()))
    } else {
        None
    }
}

/// Whether the classified pattern `pat` excludes the event path `path`,
/// with wildcard comparisons anchored at `root`.
pub fn pattern_excludes(pat: &Pattern, path: &Vec<u8>, root: &Vec<u8>) -> (r: bool)
    ensures
        r == excluded_by(pat@, path@, root@),
{
    match pat {
        Pattern::Literal(l) => contains_bytes(path, l),
        Pattern::PrefixSuffix(pre, suf) => {
            match try_relative(path, root) {
                Some(rel) => starts_with_bytes(&rel, pre) && ends_with_bytes(&rel, suf),
                None => contains_bytes(path, pre) && ends_with_bytes(path, suf),
            }
        }
        Pattern::Malformed => false,
    }
}

} // verus!
