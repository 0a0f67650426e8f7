use dirscan::entry::{Entry, EntryKind};
use dirscan::filter_entries;
use dirscan::pattern::{extension_of_path, pattern_excludes, should_exclude, str_contains};
use dirscan::scan_directory;

fn file(path: &str) -> Entry {
    Entry { path: path.to_string(), kind: EntryKind::File }
}

fn dir(path: &str) -> Entry {
    Entry { path: path.to_string(), kind: EntryKind::Directory }
}

fn pats(ps: &[&str]) -> Vec<String> {
    ps.iter().map(|p| p.to_string()).collect()
}

#[test]
fn literal_pattern_excludes_any_path_containing_it() {
    let ps = pats(&["target"]);
    assert!(should_exclude(&file("build/target/out.txt"), &ps));
    assert!(should_exclude(&file("target"), &ps));
    assert!(should_exclude(&dir("src/target_old"), &ps));
    assert!(!should_exclude(&file("build/out.txt"), &ps));
}

#[test]
fn wildcard_excludes_exactly_the_extension() {
    let ps = pats(&["*.log"]);
    assert!(should_exclude(&file("app.log"), &ps));
    assert!(should_exclude(&file("run/2024/app.log"), &ps));
    assert!(!should_exclude(&file("app.logger"), &ps));
    assert!(!should_exclude(&file("applog"), &ps));
    assert!(!should_exclude(&file("log"), &ps));
}

#[test]
fn wildcard_never_excludes_a_directory() {
    let ps = pats(&["*.log"]);
    assert!(!should_exclude(&dir("notes.log"), &ps));
    assert!(!should_exclude(
        &Entry { path: "link.log".to_string(), kind: EntryKind::Other },
        &ps
    ));
}

#[test]
fn pattern_of_neither_form_excludes_nothing() {
    assert!(!pattern_excludes(&file("weird/a*b.txt"), "a*b"));
    assert!(!pattern_excludes(&file("f.x"), "*x"));
    assert!(!pattern_excludes(&file("f.x"), "*"));
}

#[test]
fn empty_literal_pattern_excludes_everything() {
    let ps = pats(&[""]);
    assert!(should_exclude(&file("anything"), &ps));
    assert!(should_exclude(&file(""), &ps));
}

#[test]
fn empty_pattern_list_keeps_every_file() {
    let entries = vec![file("a.txt"), dir("b"), file("b/c.bin"), dir("d"), file("d/e.log")];
    let got = filter_entries(&entries, &[]);
    assert_eq!(got, vec!["a.txt", "b/c.bin", "d/e.log"]);
}

#[test]
fn excluded_directory_descendants_are_tested_independently() {
    // The directory entry `b` matches the literal pattern and is skipped;
    // `b/c.txt` is still walked and tested on its own, and is excluded
    // because its path also contains the substring `b`.
    let entries = vec![file("a.txt"), dir("b"), file("b/c.txt")];
    let got = filter_entries(&entries, &pats(&["b"]));
    assert_eq!(got, vec!["a.txt"]);
}

#[test]
fn file_inside_excluded_directory_can_survive_a_wildcard_pattern() {
    // A wildcard pattern matches only by extension, so a file inside a
    // directory whose entry was excluded can still appear in the result.
    let entries = vec![dir("logs.old"), file("logs.old/keep.txt")];
    let got = filter_entries(&entries, &pats(&["*.old"]));
    assert_eq!(got, vec!["logs.old/keep.txt"]);
}

#[test]
fn result_keeps_traversal_order_and_multiplicity() {
    let entries = vec![file("z.txt"), file("a.txt"), file("z.txt")];
    let got = filter_entries(&entries, &pats(&["*.log"]));
    assert_eq!(got, vec!["z.txt", "a.txt", "z.txt"]);
}

#[test]
fn rescanning_the_same_entries_repeats_the_result() {
    let entries = vec![file("a.txt"), dir("b"), file("b/c.txt"), file("d.log")];
    let ps = pats(&["*.log", "b"]);
    let first = filter_entries(&entries, &ps);
    let second = filter_entries(&entries, &ps);
    assert_eq!(first, second);
    assert_eq!(first, vec!["a.txt"]);
}

#[test]
fn extension_follows_the_last_dot_of_the_final_component() {
    assert_eq!(extension_of_path("dir/archive.tar.gz"), Some("gz".to_string()));
    assert_eq!(extension_of_path("app.log"), Some("log".to_string()));
    assert_eq!(extension_of_path("note."), Some("".to_string()));
    assert_eq!(extension_of_path(".profile"), None);
    assert_eq!(extension_of_path("README"), None);
    assert_eq!(extension_of_path("a/b.c/plain"), None);
    assert_eq!(extension_of_path("a/b.c/.hidden"), None);
    assert_eq!(extension_of_path("a/.hidden.swp"), Some("swp".to_string()));
    assert_eq!(extension_of_path(""), None);
}

#[test]
fn substring_search_finds_runs_anywhere() {
    assert!(str_contains("hello", "ell"));
    assert!(str_contains("hello", "hello"));
    assert!(str_contains("hello", ""));
    assert!(str_contains("", ""));
    assert!(!str_contains("", "a"));
    assert!(!str_contains("abc", "abcd"));
    assert!(!str_contains("hello", "elo"));
}

#[test]
fn scan_of_an_unreadable_root_is_an_error() {
    let r = scan_directory("no_such_path_anywhere_here", &[]);
    assert!(r.is_err());
}

#[test]
fn scan_with_the_empty_pattern_returns_no_files() {
    // The empty literal is a substring of every path, so a real walk of
    // the current directory must come back empty.
    let r = scan_directory(".", &pats(&[""])).unwrap();
    assert!(r.is_empty());
}
