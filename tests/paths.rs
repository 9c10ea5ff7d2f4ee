use casc_extract::{listfile_names, resolve_destination, PatternSet};

#[test]
fn destination_at_root() {
    let d = resolve_destination("out", "a.txt");
    assert_eq!(d.file, "out/a.txt");
    assert_eq!(d.dir, None);
}

#[test]
fn destination_in_subdirectory() {
    let d = resolve_destination("out", "b/c/d.txt");
    assert_eq!(d.file, "out/b/c/d.txt");
    assert_eq!(d.dir, Some("out/b/c".to_string()));
}

#[test]
fn destination_root_with_trailing_slash() {
    let d = resolve_destination("out/", "b/c.txt");
    assert_eq!(d.file, "out/b/c.txt");
    assert_eq!(d.dir, Some("out/b".to_string()));
}

#[test]
fn destination_empty_root() {
    let d = resolve_destination("", "b/c.txt");
    assert_eq!(d.file, "b/c.txt");
    assert_eq!(d.dir, Some("b".to_string()));
}

#[test]
fn destination_resolution_is_stable() {
    let a = resolve_destination("out", "x/y.bin");
    let b = resolve_destination("out", "x/y.bin");
    assert_eq!(a.file, b.file);
    assert_eq!(a.dir, b.dir);
}

#[test]
fn patterns_match_any() {
    let set = PatternSet::new(&vec!["*.txt".to_string(), "data/*".to_string()]).ok().unwrap();
    assert_eq!(set.len(), 2);
    assert!(set.matches("a.txt"));
    assert!(set.matches("b/c.txt"));
    assert!(set.matches("data/x.bin"));
    assert!(!set.matches("b/d.bin"));
}

#[test]
fn empty_pattern_set_matches_nothing() {
    let set = PatternSet::new(&vec![]).ok().unwrap();
    assert!(!set.matches("a.txt"));
    assert!(!set.matches(""));
}

#[test]
fn invalid_pattern_is_reported() {
    let r = PatternSet::new(&vec!["*.txt".to_string(), "***".to_string(), "[".to_string()]);
    match r {
        Err(e) => {
            assert_eq!(e.index, 1);
            assert_eq!(e.pattern, "***");
        }
        Ok(_) => panic!("pattern accepted"),
    }
}

#[test]
fn listfile_lines_are_split_and_trimmed() {
    let names = listfile_names(b"a.txt\n  missing.txt \r\n\nb/c.txt");
    assert_eq!(names, vec!["a.txt", "missing.txt", "", "b/c.txt"]);
}

#[test]
fn listfile_invalid_bytes_are_replaced() {
    let names = listfile_names(b"a\xffb\n");
    assert_eq!(names, vec!["a\u{fffd}b".to_string(), String::new()]);
}

#[test]
fn listfile_empty_content() {
    assert_eq!(listfile_names(b""), vec![String::new()]);
}
