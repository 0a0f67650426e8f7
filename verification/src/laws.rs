use vstd::prelude::*;

use crate::entry::{EntryKind, EntryView};
use crate::pattern::{
    contains_sub, ext_of_pattern, extension_of, is_ext_pattern, is_literal, pattern_matches,
    spec_excluded,
};
use crate::spec_scan;

verus! {

/// The paths of the file entries of `es`, in order, with nothing
/// filtered out.
pub open spec fn all_file_paths(es: Seq<EntryView>) -> Seq<Seq<char>>
    decreases es.len(),
{
    if es.len() == 0 {
        Seq::empty()
    } else if es.last().kind == EntryKind::File {
        all_file_paths(es.drop_last()).push(es.last().path)
    } else {
        all_file_paths(es.drop_last())
    }
}

/// The scan's result holds exactly the right paths: a path is in the
/// result of scanning the entries `es` with the patterns `ps` if and only
/// if it is the path of some file entry of `es` that no pattern matches.
/// In particular no directory entry's path is ever in the result.
pub proof fn lemma_scan_exact(es: Seq<EntryView>, ps: Seq<Seq<char>>, p: Seq<char>)
    ensures
        spec_scan(es, ps).contains(p) <==> exists|i: int|
            0 <= i < es.len() && {
                let e = #[trigger] es[i];
                e.path == p && e.kind == EntryKind::File && !spec_excluded(e, ps)
            },
    decreases es.len(),
{
    if es.len() == 0 {
    } else {
        let rest = es.drop_last();
        let e = es.last();
        lemma_scan_exact(rest, ps, p);
        assert(forall|i: int| 0 <= i < rest.len() ==> rest[i] == es[i]);
        if e.kind == EntryKind::File && !spec_excluded(e, ps) {
            let r = spec_scan(rest, ps);
            assert(spec_scan(es, ps) == r.push(e.path));
            if spec_scan(es, ps).contains(p) {
                let k = choose|k: int| 0 <= k < r.push(e.path).len() && r.push(e.path)[k] == p;
                if k < r.len() {
                    assert(r.contains(p));
                } else {
                    assert(es[es.len() - 1] == e && e.path == p);
                }
            }
            if exists|i: int|
                0 <= i < es.len() && {
                    let x = #[trigger] es[i];
                    x.path == p && x.kind == EntryKind::File && !spec_excluded(x, ps)
                } {
                let i = choose|i: int|
                    0 <= i < es.len() && {
                        let x = #[trigger] es[i];
                        x.path == p && x.kind == EntryKind::File && !spec_excluded(x, ps)
                    };
                if i < rest.len() {
                    assert(r.contains(p));
                    let k = choose|k: int| 0 <= k < r.len() && r[k] == p;
                    assert(r.push(e.path)[k] == p);
                } else {
                    assert(r.push(e.path)[r.len() as int] == e.path);
                }
            }
        } else {
            assert(spec_scan(es, ps) == spec_scan(rest, ps));
            if exists|i: int|
                0 <= i < es.len() && {
                    let x = #[trigger] es[i];
                    x.path == p && x.kind == EntryKind::File && !spec_excluded(x, ps)
                } {
                let i = choose|i: int|
                    0 <= i < es.len() && {
                        let x = #[trigger] es[i];
                        x.path == p && x.kind == EntryKind::File && !spec_excluded(x, ps)
                    };
                assert(i < rest.len());
            }
        }
    }
}

/// A literal pattern that occurs somewhere in an entry's path excludes
/// that entry, whatever the other patterns say.
pub proof fn lemma_literal_pattern_excludes(e: EntryView, ps: Seq<Seq<char>>, i: int)
    requires
        0 <= i < ps.len(),
        is_literal(ps[i]),
        contains_sub(e.path, ps[i]),
    ensures
        spec_excluded(e, ps),
{
    assert(pattern_matches(e, ps[i]));
}

/// An extension pattern `*.ext` matches exactly the file entries whose
/// extension equals `ext`; it never matches a directory or any other
/// non-file entry, however its path reads.
pub proof fn lemma_ext_pattern_matches_only_files(e: EntryView, p: Seq<char>)
    requires
        is_ext_pattern(p),
    ensures
        pattern_matches(e, p) <==> (e.kind == EntryKind::File && extension_of(e.path) == Some(
            ext_of_pattern(p),
        )),
{
    assert(p[0] == '*');
    assert(!is_literal(p));
}

/// With an empty pattern list the scan keeps every file: its result is
/// the full ordered list of file paths of the tree.
pub proof fn lemma_no_patterns_keeps_all_files(es: Seq<EntryView>)
    ensures
        spec_scan(es, Seq::empty()) == all_file_paths(es),
    decreases es.len(),
{
    if es.len() == 0 {
    } else {
        lemma_no_patterns_keeps_all_files(es.drop_last());
        assert(!spec_excluded(es.last(), Seq::empty()));
    }
}

/// Scanning is a function of the entries and the patterns alone: two
/// scans over the same entry sequence with the same pattern list return
/// the same ordered result. Re-running a scan on an unchanged tree thus
/// repeats the result exactly, provided the walk yields the tree's
/// entries in the same order.
pub proof fn lemma_scan_repeatable(
    es1: Seq<EntryView>,
    es2: Seq<EntryView>,
    ps1: Seq<Seq<char>>,
    ps2: Seq<Seq<char>>,
)
    requires
        es1 == es2,
        ps1 == ps2,
    ensures
        spec_scan(es1, ps1) == spec_scan(es2, ps2),
{
}

} // verus!
