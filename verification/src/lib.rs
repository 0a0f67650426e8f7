//! Recursive directory scanning with exclusion patterns.
//!
//! A scan walks the tree under a root and collects, in traversal order,
//! the paths of the files that no exclusion pattern matches. A pattern is
//! either a literal, matched as a substring of the whole path, or a
//! wildcard of the form `*.ext`, matched against a file's extension. The
//! walk itself is done by the walkdir crate; everything decided about its
//! entries — which are files, which are excluded, what the result list
//! holds — is verified.

use vstd::prelude::*;

pub mod entry;
pub mod laws;
pub mod pattern;

use crate::entry::{Entry, EntryKind, EntryView};
use crate::pattern::{should_exclude, spec_excluded};

verus! {

/// The one error a scan can end in: the walk could not read an entry.
/// The message carries the walking library's description of the failure.
#[derive(Debug)]
pub struct ScanError {
    pub message: String,
}

/// The result list of a scan over the entries `es` with the patterns
/// `ps`: the path of every file entry that no pattern excludes, in the
/// order the entries stand in `es`.
pub open spec fn spec_scan(es: Seq<EntryView>, ps: Seq<Seq<char>>) -> Seq<Seq<char>>
    decreases es.len(),
{
    if es.len() == 0 {
        Seq::empty()
    } else {
        let rest = spec_scan(es.drop_last(), ps);
        let e = es.last();
        if e.kind == EntryKind::File && !spec_excluded(e, ps) {
            rest.push(e.path)
        } else {
            rest
        }
    }
}

/// Keeps, of `entries`, the paths of the files that no pattern excludes,
/// in order. Directory entries and other non-file entries are never kept,
/// whether excluded or not.
pub fn filter_entries(entries: &Vec<Entry>, patterns: &[String]) -> (files: Vec<String>)
    ensures
        files.deep_view() == spec_scan(entries.deep_view(), patterns.deep_view()),
{
    let mut files: Vec<String> = Vec::new();
    let n = entries.len();
    let mut i: usize = 0;
    while i < n
        invariant
            i <= n,
            n == entries@.len(),
            files.deep_view() == spec_scan(
                entries.deep_view().take(i as int),
                patterns.deep_view(),
            ),
        decreases n - i,
    {
        let e = &entries[i];
        let keep = match e.kind {
            EntryKind::File => !should_exclude(e, patterns),
            _ => false,
        };
        proof {
            assert(entries.deep_view().take(i + 1).drop_last() =~= entries.deep_view().take(
                i as int,
            ));
            assert(entries.deep_view().take(i + 1).last() == entries@[i as int]@);
        }
        if keep {
            let ghost prev = files.deep_view();
            files.push(e.path.clone());
            proof {
                assert(files.deep_view() =~= prev.push(entries@[i as int]@.path));
            }
        }
        i = i + 1;
    }
    proof {
        assert(entries.deep_view().take(n as int) =~= entries.deep_view());
    }
    files
}

/// Relies on the walkdir crate: iterating `walkdir::WalkDir::new(root)`
/// yields, depth first and the root first, one result per reachable
/// entry, `DirEntry::path` being its path and `DirEntry::file_type` its
/// classification, or an error where an entry could not be read. What the
/// walk yields depends on the file system, so nothing is promised of the
/// result; `scan_directory` states what holds of every outcome.
#[verifier::external_body]
fn walk_entries(root: &str) -> (r: Result<Vec<Entry>, ScanError>) {
    let mut entries = Vec::new();
    for item in walkdir::WalkDir::new(root) {
        match item {
            Ok(d) => {
                let ft = d.file_type();
                let kind = if ft.is_file() { EntryKind::File } else if ft.is_dir() { EntryKind::Directory } else { EntryKind::Other };
                entries.push(Entry { path: d.path().display().to_string(), kind });
            },
            Err(e) => return Err(ScanError { message: e.to_string() }),
        }
    }
    Ok(entries)
}

/// Walks the tree under `path` and returns the paths of the files that no
/// pattern of `exclude_patterns` excludes, in traversal order; or the
/// first reading error, which aborts the whole scan.
///
/// Whatever entries the walk yields, the returned list is exactly
/// [`spec_scan`] of those entries: [`filter_entries`] fixes the list for
/// each possible tree.
pub fn scan_directory(path: &str, exclude_patterns: &[String]) -> (r: Result<
    Vec<String>,
    ScanError,
>)
    ensures
        r matches Ok(files) ==> exists|es: Seq<EntryView>|
            files.deep_view() == #[trigger] spec_scan(es, exclude_patterns.deep_view()),
{
    match walk_entries(path) {
        Ok(entries) => {
            let files = filter_entries(&entries, exclude_patterns);
            proof {
                assert(files.deep_view() == spec_scan(
                    entries.deep_view(),
                    exclude_patterns.deep_view(),
                ));
            }
            Ok(files)
        },
        Err(e) => Err(e),
    }
}

} // verus!
