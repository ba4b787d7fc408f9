//! Tests of pattern classification, exclusion matching, and the matcher's
//! per-event decision.

use fs_change_notifier::{
    classify, classify_patterns, contains_bytes, ends_with_bytes, event_qualifies, kind_is_relevant,
    match_step, path_excluded, pattern_excludes, starts_with_bytes, try_relative, EventKind,
    FsEvent, MatcherStep, Pattern,
};

fn v(s: &str) -> Vec<u8> {
    s.as_bytes().to_vec()
}

fn patterns(raw: &[&str]) -> Vec<Pattern> {
    let raws: Vec<Vec<u8>> = raw.iter().map(|s| v(s)).collect();
    classify_patterns(&raws)
}

#[test]
fn byte_predicates() {
    assert!(starts_with_bytes(&v("build/out.tmp"), &v("build")));
    assert!(!starts_with_bytes(&v("build/out.tmp"), &v("out")));
    assert!(starts_with_bytes(&v("anything"), &v("")));
    assert!(!starts_with_bytes(&v("ab"), &v("abc")));

    assert!(ends_with_bytes(&v("build/out.tmp"), &v(".tmp")));
    assert!(!ends_with_bytes(&v("build/out.tmp"), &v(".rs")));
    assert!(ends_with_bytes(&v(""), &v("")));

    assert!(contains_bytes(&v("/proj/.git/config"), &v(".git")));
    assert!(!contains_bytes(&v("/proj/src/main.rs"), &v(".git")));
    assert!(contains_bytes(&v("abc"), &v("")));
    assert!(contains_bytes(&v("abc"), &v("abc")));
    assert!(!contains_bytes(&v("ab"), &v("abc")));
}

#[test]
fn classify_literal() {
    match classify(&v("/proj/.git")) {
        Pattern::Literal(l) => assert_eq!(l, v("/proj/.git")),
        _ => panic!("expected a literal pattern"),
    }
}

#[test]
fn classify_single_wildcard() {
    match classify(&v("*.tmp")) {
        Pattern::PrefixSuffix(pre, suf) => {
            assert_eq!(pre, v(""));
            assert_eq!(suf, v(".tmp"));
        }
        _ => panic!("expected a prefix/suffix pattern"),
    }
    match classify(&v("build/*.o")) {
        Pattern::PrefixSuffix(pre, suf) => {
            assert_eq!(pre, v("build/"));
            assert_eq!(suf, v(".o"));
        }
        _ => panic!("expected a prefix/suffix pattern"),
    }
}

#[test]
fn classify_malformed() {
    assert!(matches!(classify(&v("a*b*c")), Pattern::Malformed));
    assert!(matches!(classify(&v("**")), Pattern::Malformed));
}

#[test]
fn relative_path_forms() {
    assert_eq!(
        try_relative(&v("/proj/build/out.tmp"), &v("/proj")),
        Some(v("build/out.tmp"))
    );
    assert_eq!(try_relative(&v("/proj"), &v("/proj")), Some(v("")));
    assert_eq!(try_relative(&v("/proj/a"), &v("/proj/")), Some(v("a")));
    assert_eq!(try_relative(&v("/other/x"), &v("/proj")), None);
    // A sibling whose name merely continues the root is not under it.
    assert_eq!(try_relative(&v("/project/x"), &v("/proj")), None);
    assert_eq!(try_relative(&v("/proj/x"), &v("")), Some(v("/proj/x")));
}

#[test]
fn literal_excludes_iff_substring() {
    let pat = classify(&v(".git"));
    let root = v("/proj");
    assert!(pattern_excludes(&pat, &v("/proj/.git/config"), &root));
    assert!(pattern_excludes(&pat, &v("/elsewhere/.git"), &root));
    assert!(!pattern_excludes(&pat, &v("/proj/src/main.rs"), &root));
}

#[test]
fn wildcard_excludes_under_root() {
    let pat = classify(&v("build/*.o"));
    let root = v("/proj");
    assert!(pattern_excludes(&pat, &v("/proj/build/a.o"), &root));
    // The prefix must start the relative path, not merely occur in it.
    assert!(!pattern_excludes(&pat, &v("/proj/sub/build/a.o"), &root));
    assert!(!pattern_excludes(&pat, &v("/proj/build/a.rs"), &root));
}

#[test]
fn wildcard_excludes_outside_root() {
    // Outside the root the prefix may occur anywhere, the suffix must still
    // end the raw path.
    let pat = classify(&v("build/*.o"));
    let root = v("/proj");
    assert!(pattern_excludes(&pat, &v("/other/build/a.o"), &root));
    assert!(!pattern_excludes(&pat, &v("/other/build/a.rs"), &root));
    assert!(!pattern_excludes(&pat, &v("/other/a.o"), &root));
}

#[test]
fn malformed_excludes_nothing() {
    let pat = classify(&v("a*b*c"));
    let root = v("/proj");
    assert!(!pattern_excludes(&pat, &v("/proj/abc"), &root));
    assert!(!pattern_excludes(&pat, &v("a*b*c"), &root));
    assert!(!pattern_excludes(&pat, &v(""), &root));
}

#[test]
fn relevance_of_each_kind() {
    assert!(kind_is_relevant(EventKind::CreateFile));
    assert!(kind_is_relevant(EventKind::ModifyName));
    assert!(kind_is_relevant(EventKind::ModifyData));
    assert!(kind_is_relevant(EventKind::Remove));
    assert!(!kind_is_relevant(EventKind::CreateOther));
    assert!(!kind_is_relevant(EventKind::ModifyMetadata));
    assert!(!kind_is_relevant(EventKind::ModifyOther));
    assert!(!kind_is_relevant(EventKind::Access));
    assert!(!kind_is_relevant(EventKind::Other));
}

#[test]
fn metadata_only_never_passes() {
    let pats = patterns(&[]);
    let root = v("/proj");
    let ev = FsEvent { kind: EventKind::ModifyMetadata, paths: vec![v("/proj/src/main.rs")] };
    assert!(!event_qualifies(&ev, &pats, &root));
    assert_eq!(match_step(Some(ev), &pats, &root), MatcherStep::Poll);
}

#[test]
fn clear_creation_passes() {
    let pats = patterns(&["*.tmp", "/proj/.git"]);
    let root = v("/proj");
    let ev = FsEvent { kind: EventKind::CreateFile, paths: vec![v("/proj/src/new.rs")] };
    assert!(event_qualifies(&ev, &pats, &root));
    assert_eq!(match_step(Some(ev), &pats, &root), MatcherStep::Finish);
}

#[test]
fn excluded_sole_path_blocks_removal() {
    let pats = patterns(&[".git"]);
    let root = v("/proj");
    let ev = FsEvent { kind: EventKind::Remove, paths: vec![v("/proj/.git/config")] };
    assert!(!event_qualifies(&ev, &pats, &root));
    assert_eq!(match_step(Some(ev), &pats, &root), MatcherStep::Poll);
}

#[test]
fn any_clear_path_suffices() {
    // A rename carrying an excluded source and a clear destination passes.
    let pats = patterns(&["*.tmp"]);
    let root = v("/proj");
    let ev = FsEvent {
        kind: EventKind::ModifyName,
        paths: vec![v("/proj/a.tmp"), v("/proj/a.rs")],
    };
    assert!(event_qualifies(&ev, &pats, &root));
}

#[test]
fn event_with_no_paths_never_passes() {
    let pats = patterns(&[]);
    let root = v("/proj");
    let ev = FsEvent { kind: EventKind::CreateFile, paths: vec![] };
    assert!(!event_qualifies(&ev, &pats, &root));
}

#[test]
fn empty_queue_means_sleep_and_retry() {
    let pats = patterns(&["*.tmp"]);
    let root = v("/proj");
    assert_eq!(match_step(None, &pats, &root), MatcherStep::SleepAndPoll);
}

#[test]
fn project_scenario() {
    let root = v("/proj");
    let pats = patterns(&["*.tmp", "/proj/.git"]);

    // A created temp file matches the wildcard on its root-relative form
    // `build/out.tmp`, so the matcher keeps looping.
    let ev1 = FsEvent { kind: EventKind::CreateFile, paths: vec![v("/proj/build/out.tmp")] };
    assert!(path_excluded(&v("/proj/build/out.tmp"), &pats, &root));
    assert_eq!(match_step(Some(ev1), &pats, &root), MatcherStep::Poll);

    // A removed source file clears both patterns and is relevant.
    let ev2 = FsEvent { kind: EventKind::Remove, paths: vec![v("/proj/src/main.rs")] };
    assert!(!path_excluded(&v("/proj/src/main.rs"), &pats, &root));
    assert_eq!(match_step(Some(ev2), &pats, &root), MatcherStep::Finish);
}
