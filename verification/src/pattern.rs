use vstd::prelude::*;

use crate::entry::{Entry, EntryKind, EntryView};

verus! {

// ---------------------------------------------------------------------------
// What a pattern is and what it matches.
// ---------------------------------------------------------------------------

/// A pattern without any wildcard character: it is matched as a literal
/// substring of the whole path.
pub open spec fn is_literal(p: Seq<char>) -> bool {
    forall|i: int| 0 <= i < p.len() ==> p[i] != '*'
}

/// A pattern of the form `*.ext`: it names a file extension.
pub open spec fn is_ext_pattern(p: Seq<char>) -> bool {
    p.len() >= 2 && p[0] == '*' && p[1] == '.'
}

/// The extension named by an extension pattern: everything after the
/// leading `*.`.
pub open spec fn ext_of_pattern(p: Seq<char>) -> Seq<char>
    recommends
        is_ext_pattern(p),
{
    p.subrange(2, p.len() as int)
}

/// `needle` occurs somewhere inside `hay` as a contiguous run.
pub open spec fn contains_sub(hay: Seq<char>, needle: Seq<char>) -> bool {
    exists|i: int|
        0 <= i && i + needle.len() <= hay.len() && #[trigger] hay.subrange(i, i + needle.len())
            == needle
}

/// Index of the last occurrence of `c` in `s`, or `-1` when `c` does not
/// occur.
pub open spec fn last_index_of(s: Seq<char>, c: char) -> int
    decreases s.len(),
{
    if s.len() == 0 {
        -1
    } else if s[s.len() - 1] == c {
        s.len() - 1
    } else {
        last_index_of(s.drop_last(), c)
    }
}

/// The final component of a path: everything after the last `/`, or the
/// whole path when it holds no `/`.
pub open spec fn file_name_of(path: Seq<char>) -> Seq<char> {
    path.subrange(last_index_of(path, '/') + 1, path.len() as int)
}

/// The extension of a path's final component: the part after the
/// component's last dot. A dot that starts the component does not count,
/// so a name such as `.profile` has no extension, while `archive.tar.gz`
/// has extension `gz` and `note.` has the empty extension.
pub open spec fn extension_of(path: Seq<char>) -> Option<Seq<char>> {
    let name = file_name_of(path);
    let d = last_index_of(name, '.');
    if d <= 0 {
        None
    } else {
        Some(name.subrange(d + 1, name.len() as int))
    }
}

/// Whether one pattern matches one entry.
///
/// A literal pattern matches any entry whose full path contains it as a
/// substring. An extension pattern matches a file whose extension equals
/// the named one exactly. A pattern of neither form matches nothing.
pub open spec fn pattern_matches(e: EntryView, p: Seq<char>) -> bool {
    ||| (is_literal(p) && contains_sub(e.path, p))
    ||| (is_ext_pattern(p) && e.kind == EntryKind::File && extension_of(e.path) == Some(
        ext_of_pattern(p),
    ))
}

/// Whether some pattern of the list matches the entry.
pub open spec fn spec_excluded(e: EntryView, ps: Seq<Seq<char>>) -> bool {
    exists|i: int| 0 <= i < ps.len() && pattern_matches(e, ps[i])
}

// ---------------------------------------------------------------------------
// Facts about the specification functions.
// ---------------------------------------------------------------------------

/// `last_index_of` is a position of `c` in `s`, when there is one, and no
/// later position holds `c`.
pub proof fn lemma_last_index_of(s: Seq<char>, c: char)
    ensures
        -1 <= last_index_of(s, c) < s.len(),
        last_index_of(s, c) >= 0 ==> s[last_index_of(s, c)] == c,
        forall|j: int| last_index_of(s, c) < j < s.len() ==> s[j] != c,
    decreases s.len(),
{
    if s.len() == 0 {
    } else if s[s.len() - 1] == c {
    } else {
        lemma_last_index_of(s.drop_last(), c);
        assert forall|j: int| last_index_of(s, c) < j < s.len() implies s[j] != c by {
            if j < s.len() - 1 {
                assert(s.drop_last()[j] == s[j]);
            }
        }
    }
}

// ---------------------------------------------------------------------------
// Executable matching.
// ---------------------------------------------------------------------------

/// Whether `c` occurs in `s`.
pub fn contains_char(s: &str, c: char) -> (b: bool)
    ensures
        b == exists|i: int| 0 <= i < s@.len() && s@[i] == c,
{
    let n = s.unicode_len();
    let mut i: usize = 0;
    while i < n
        invariant
            i <= n,
            n == s@.len(),
            forall|k: int| 0 <= k < i ==> s@[k] != c,
        decreases n - i,
    {
        if s.get_char(i) == c {
            return true;
        }
        i = i + 1;
    }
    false
}

/// Whether `needle` stands in `hay` at offset `at`.
fn matches_at(hay: &str, at: usize, needle: &str) -> (b: bool)
    requires
        at + needle@.len() <= hay@.len(),
        hay@.len() <= usize::MAX,
    ensures
        b == (hay@.subrange(at as int, at + needle@.len()) == needle@),
{
    let m = needle.unicode_len();
    let mut j: usize = 0;
    while j < m
        invariant
            j <= m,
            m == needle@.len(),
            at + m <= hay@.len(),
            hay@.len() <= usize::MAX,
            forall|k: int| 0 <= k < j ==> hay@[at + k] == needle@[k],
        decreases m - j,
    {
        if hay.get_char(at + j) != needle.get_char(j) {
            proof {
                assert(hay@.subrange(at as int, at + needle@.len())[j as int] == hay@[at + j]);
            }
            return false;
        }
        j = j + 1;
    }
    proof {
        assert(hay@.subrange(at as int, at + needle@.len()) =~= needle@);
    }
    true
}

/// Whether `needle` occurs anywhere inside `hay`. An empty `needle`
/// occurs in every string.
pub fn str_contains(hay: &str, needle: &str) -> (b: bool)
    ensures
        b == contains_sub(hay@, needle@),
{
    let n = hay.unicode_len();
    let m = needle.unicode_len();
    if m > n {
        return false;
    }
    if m == 0 {
        proof {
            assert(hay@.subrange(0, 0 + needle@.len() as int) =~= needle@);
        }
        return true;
    }
    let limit = n - m;
    let mut i: usize = 0;
    loop
        invariant
            i <= limit + 1,
            n == hay@.len(),
            m == needle@.len(),
            1 <= m <= n,
            limit == n - m,
            forall|k: int| 0 <= k < i ==> #[trigger] hay@.subrange(k, k + needle@.len()) != needle@,
        decreases limit + 1 - i,
    {
        if i > limit {
            return false;
        }
        if matches_at(hay, i, needle) {
            return true;
        }
        i = i + 1;
    }
}

/// Index of the last occurrence of `c` in `s`, where `None` stands for
/// no occurrence.
fn last_char_index(s: &str, c: char) -> (r: Option<usize>)
    ensures
        match r {
            Some(i) => i == last_index_of(s@, c),
            None => last_index_of(s@, c) == -1,
        },
{
    let n = s.unicode_len();
    let mut i: usize = n;
    while i > 0
        invariant
            i <= n,
            n == s@.len(),
            forall|j: int| i <= j < n ==> s@[j] != c,
        decreases i,
    {
        if s.get_char(i - 1) == c {
            proof {
                lemma_last_index_of(s@, c);
            }
            return Some(i - 1);
        }
        i = i - 1;
    }
    proof {
        lemma_last_index_of(s@, c);
    }
    None
}

/// The extension of `path`, by the same rule as the specification
/// function [`extension_of`].
pub fn extension_of_path(path: &str) -> (r: Option<String>)
    ensures
        match r {
            Some(e) => extension_of(path@) == Some(e@),
            None => extension_of(path@) is None,
        },
{
    proof {
        lemma_last_index_of(path@, '/');
    }
    let n = path.unicode_len();
    let start: usize = match last_char_index(path, '/') {
        Some(i) => i + 1,
        None => 0,
    };
    let name = path.substring_char(start, n);
    proof {
        assert(name@ == file_name_of(path@));
        lemma_last_index_of(name@, '.');
    }
    let m = name.unicode_len();
    match last_char_index(name, '.') {
        None => None,
        Some(d) => {
            if d == 0 {
                None
            } else {
                Some(String::from_str(name.substring_char(d + 1, m)))
            }
        },
    }
}

/// Whether two string slices hold the same characters.
pub fn str_eq(a: &str, b: &str) -> (r: bool)
    ensures
        r == (a@ == b@),
{
    let n = a.unicode_len();
    if n != b.unicode_len() {
        return false;
    }
    let r = matches_at(a, 0, b);
    proof {
        assert(a@.subrange(0, a@.len() as int) =~= a@);
    }
    r
}

/// Whether the single pattern `p` matches the entry, by the rules of
/// [`pattern_matches`].
pub fn pattern_excludes(e: &Entry, p: &str) -> (b: bool)
    ensures
        b == pattern_matches(e@, p@),
{
    if !contains_char(p, '*') {
        if str_contains(e.path.as_str(), p) {
            return true;
        }
        proof {
            assert(!is_ext_pattern(p@));
        }
        return false;
    }
    let n = p.unicode_len();
    if n >= 2 && p.get_char(0) == '*' && p.get_char(1) == '.' {
        if match e.kind {
            EntryKind::File => true,
            _ => false,
        } {
            let wanted = p.substring_char(2, n);
            match extension_of_path(e.path.as_str()) {
                Some(ext) => str_eq(ext.as_str(), wanted),
                None => false,
            }
        } else {
            false
        }
    } else {
        proof {
            assert(!is_literal(p@));
        }
        false
    }
}

/// Whether some pattern of `patterns` matches the entry, by the rules of
/// [`spec_excluded`]. With an empty list nothing is excluded.
pub fn should_exclude(e: &Entry, patterns: &[String]) -> (b: bool)
    ensures
        b == spec_excluded(e@, patterns.deep_view()),
{
    let n = patterns.len();
    let mut i: usize = 0;
    while i < n
        invariant
            i <= n,
            n == patterns@.len(),
            forall|k: int| 0 <= k < i ==> !pattern_matches(e@, #[trigger] patterns.deep_view()[k]),
        decreases n - i,
    {
        if pattern_excludes(e, patterns[i].as_str()) {
            proof {
                assert(pattern_matches(e@, patterns.deep_view()[i as int]));
            }
            return true;
        }
        i = i + 1;
    }
    false
}

} // verus!
