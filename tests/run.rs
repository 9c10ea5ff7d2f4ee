use casc_extract::{
    Destination, Extraction, Mode, OpenOutcome, PatternSet, RunReporter, RunStats, SkipReason, StreamOutcome,
};

/// How an entry behaves when extracted from the simulated archive.
#[derive(Clone, Copy)]
enum Entry {
    Good(u64),
    Corrupt,
    Locked,
}

fn lookup(archive: &[(&str, Entry)], name: &str) -> Option<Entry> {
    archive.iter().find(|(n, _)| *n == name).map(|(_, e)| *e)
}

/// Drives a run over `names`, answering from `archive`; returns the
/// statistics and the destinations written.
fn drive(mode: Mode, patterns: &[&str], archive: &[(&str, Entry)], names: &[&str]) -> (RunStats, Vec<Destination>) {
    let globs: Vec<String> = patterns.iter().map(|p| p.to_string()).collect();
    let filter = PatternSet::new(&globs).ok().unwrap();
    let mut run = Extraction::new(mode, filter, "out".to_string(), names.len() as u64);
    let mut written = vec![];
    let mut opened = vec![];
    for name in names {
        assert!(run.is_idle() && run.has_room());
        let matched = run.offer(name.to_string());
        opened.push(matched);
        if !matched {
            continue;
        }
        let entry = lookup(archive, name);
        let outcome = match entry {
            None => OpenOutcome::NotFound,
            Some(Entry::Locked) => OpenOutcome::Failed("locked".to_string()),
            Some(_) => OpenOutcome::Opened,
        };
        if let Some(dest) = run.opened(outcome) {
            let outcome = match entry {
                Some(Entry::Good(n)) => StreamOutcome::Written(n),
                _ => StreamOutcome::Failed("decode error".to_string()),
            };
            written.push(dest);
            run.streamed(outcome);
        }
    }
    assert!(run.is_idle());
    let filter_again = PatternSet::new(&globs).ok().unwrap();
    for (name, o) in names.iter().zip(opened) {
        assert_eq!(o, filter_again.matches(name));
    }
    (run.finish(), written)
}

const ARCHIVE: [(&str, Entry); 3] = [("a.txt", Entry::Good(5)), ("b/c.txt", Entry::Good(7)), ("b/d.bin", Entry::Good(1))];

#[test]
fn enumeration_extracts_matching_entries() {
    let (stats, written) = drive(Mode::Enumeration, &["*.txt"], &ARCHIVE, &["a.txt", "b/c.txt", "b/d.bin"]);
    assert_eq!(stats.scanned, 3);
    assert_eq!(stats.extracted, 2);
    assert_eq!(stats.matched, 2);
    assert_eq!(stats.skipped.len(), 0);
    assert_eq!(written.len(), 2);
    assert_eq!(written[0].file, "out/a.txt");
    assert_eq!(written[0].dir, None);
    assert_eq!(written[1].file, "out/b/c.txt");
    assert_eq!(written[1].dir, Some("out/b".to_string()));
}

#[test]
fn listfile_leaves_out_missing_names() {
    let (stats, written) = drive(Mode::Listfile, &["*.txt"], &ARCHIVE, &["a.txt", "missing.txt"]);
    assert_eq!(stats.scanned, 1);
    assert_eq!(stats.extracted, 1);
    assert_eq!(stats.skipped.len(), 0);
    assert_eq!(written.len(), 1);
    assert_eq!(written[0].file, "out/a.txt");
}

#[test]
fn stream_failure_is_recorded_and_run_goes_on() {
    let archive = [("a.txt", Entry::Good(1)), ("bad.txt", Entry::Corrupt), ("z.txt", Entry::Good(2))];
    let (stats, written) = drive(Mode::Enumeration, &["*.txt"], &archive, &["a.txt", "bad.txt", "z.txt"]);
    assert_eq!(stats.scanned, 3);
    assert_eq!(stats.extracted, 2);
    assert_eq!(stats.skipped.len(), 1);
    assert_eq!(stats.skipped[0].identifier, "bad.txt");
    let reason = stats.skipped[0].reason.text();
    assert!(!reason.is_empty());
    assert_eq!(reason, "decode error");
    assert_eq!(written.len(), 3);
    assert_eq!(written[2].file, "out/z.txt");
}

#[test]
fn enumeration_records_not_found() {
    let (stats, _) = drive(Mode::Enumeration, &["*"], &ARCHIVE, &["a.txt", "gone.txt"]);
    assert_eq!(stats.scanned, 2);
    assert_eq!(stats.extracted, 1);
    assert_eq!(stats.skipped.len(), 1);
    assert_eq!(stats.skipped[0].identifier, "gone.txt");
    assert!(matches!(stats.skipped[0].reason, SkipReason::NotFound));
    assert_eq!(stats.skipped[0].reason.text(), "file not found");
}

#[test]
fn listfile_records_other_open_failures() {
    let archive = [("a.txt", Entry::Locked), ("b.bin", Entry::Locked)];
    let (stats, _) = drive(Mode::Listfile, &["*.txt"], &archive, &["a.txt", "b.bin", "nope.txt"]);
    assert_eq!(stats.scanned, 2);
    assert_eq!(stats.matched, 1);
    assert_eq!(stats.extracted, 0);
    assert_eq!(stats.skipped.len(), 1);
    assert_eq!(stats.skipped[0].identifier, "a.txt");
    assert!(matches!(stats.skipped[0].reason, SkipReason::OpenFailed(_)));
    assert_eq!(stats.skipped[0].reason.text(), "locked");
}

#[test]
fn accounting_holds_over_a_mixed_run() {
    let archive = [
        ("a.txt", Entry::Good(1)),
        ("b.txt", Entry::Corrupt),
        ("c.txt", Entry::Locked),
        ("d.bin", Entry::Good(3)),
    ];
    let names = ["a.txt", "b.txt", "c.txt", "d.bin", "e.txt"];
    for mode in [Mode::Enumeration, Mode::Listfile] {
        let listfile = matches!(mode, Mode::Listfile);
        let (stats, _) = drive(mode, &["*.txt"], &archive, &names);
        assert_eq!(stats.matched, stats.extracted + stats.skipped.len() as u64);
        assert!(stats.matched <= stats.scanned);
        assert_eq!(stats.extracted, 1);
        if listfile {
            assert_eq!(stats.scanned, 4);
            assert!(stats.skipped.iter().all(|s| !matches!(s.reason, SkipReason::NotFound)));
        } else {
            assert_eq!(stats.scanned, 5);
            assert_eq!(stats.skipped.len(), 3);
        }
    }
}

#[test]
fn empty_patterns_extract_nothing() {
    let (stats, written) = drive(Mode::Enumeration, &[], &ARCHIVE, &["a.txt", "b/c.txt"]);
    assert_eq!(stats.scanned, 2);
    assert_eq!(stats.matched, 0);
    assert_eq!(stats.extracted, 0);
    assert!(written.is_empty());
}

#[test]
fn listfile_without_patterns_opens_nothing() {
    let filter = PatternSet::new(&vec![]).ok().unwrap();
    let mut run = Extraction::new(Mode::Listfile, filter, "out".to_string(), 2);
    assert!(!run.offer("a.txt".to_string()));
    assert!(run.is_idle());
    assert!(!run.offer("missing.txt".to_string()));
    let stats = run.finish();
    assert_eq!(stats.scanned, 2);
    assert_eq!(stats.matched, 0);
    assert_eq!(stats.extracted, 0);
    assert!(stats.skipped.is_empty());
}

#[test]
fn listfile_opens_only_matching_names() {
    let filter = PatternSet::new(&vec!["*.txt".to_string()]).ok().unwrap();
    let mut run = Extraction::new(Mode::Listfile, filter, "out".to_string(), 2);
    assert!(!run.offer("b/d.bin".to_string()));
    assert!(run.offer("a.txt".to_string()));
    assert!(run.is_opening());
    assert!(run.opened(OpenOutcome::NotFound).is_none());
    let stats = run.finish();
    assert_eq!(stats.scanned, 1);
    assert_eq!(stats.matched, 0);
    assert!(stats.skipped.is_empty());
}

#[test]
fn run_phases_follow_the_protocol() {
    let filter = PatternSet::new(&vec!["*".to_string()]).ok().unwrap();
    let mut run = Extraction::new(Mode::Enumeration, filter, "o".to_string(), 1);
    assert_eq!(run.total_count(), 1);
    assert!(run.is_idle());
    assert!(run.offer("x".to_string()));
    assert!(run.is_opening());
    assert!(run.opened(OpenOutcome::Opened).is_some());
    assert!(run.is_writing());
    run.streamed(StreamOutcome::Written(4));
    assert!(run.is_idle());
    assert!(run.has_room());
}

#[test]
fn reporter_counts_and_keeps_order() {
    let mut r = RunReporter::new();
    r.record_scanned();
    r.record_scanned();
    r.record_matched();
    r.record_extracted();
    r.record_skipped("one".to_string(), SkipReason::StreamFailed("bad".to_string()));
    r.record_skipped("two".to_string(), SkipReason::NotFound);
    let s = r.finish();
    assert_eq!((s.scanned, s.matched, s.extracted), (2, 1, 1));
    assert_eq!(s.skipped[0].identifier, "one");
    assert_eq!(s.skipped[1].identifier, "two");
    assert_eq!(s.skipped[0].reason.text(), "bad");
}
