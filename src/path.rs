//! Splitting a path into its directory part and its base file name.
//!
//! The separator is `/`. Trailing separators and trailing `.` components
//! are ignored, so `dir/` and `dir/.` both name `dir`; a `..` component, or a
//! lone `.`, names no file.

use vstd::prelude::*;

verus! {

/// `p` ends in a `.` component that follows a separator.
pub open spec fn ends_in_cur_dir(p: Seq<char>) -> bool {
    p.len() >= 2 && p.last() == '.' && p[p.len() - 2] == '/'
}

/// `p` without its trailing separators and trailing `.` components.
pub open spec fn trim_tail(p: Seq<char>) -> Seq<char>
    decreases p.len(),
{
    if p.len() > 0 && (p.last() == '/' || ends_in_cur_dir(p)) {
        trim_tail(p.drop_last())
    } else {
        p
    }
}

/// The index of the last separator in `p`, or -1 where it holds none.
pub open spec fn last_sep(p: Seq<char>) -> int
    decreases p.len(),
{
    if p.len() == 0 {
        -1
    } else if p.last() == '/' {
        p.len() - 1
    } else {
        last_sep(p.drop_last())
    }
}

/// The last component of `p`.
pub open spec fn base_name(p: Seq<char>) -> Seq<char> {
    let t = trim_tail(p);
    t.subrange(last_sep(t) + 1, t.len() as int)
}

/// Everything of `p` before its last component, separator included.
pub open spec fn dir_part(p: Seq<char>) -> Seq<char> {
    let t = trim_tail(p);
    t.subrange(0, last_sep(t) + 1)
}

/// A component that names a file: not empty, not `.` and not `..`.
pub open spec fn names_file(c: Seq<char>) -> bool {
    c.len() > 0 && c != seq!['.'] && c != seq!['.', '.']
}

/// `p` has a file name: its last component names a file.
pub open spec fn has_file_name(p: Seq<char>) -> bool {
    names_file(base_name(p))
}

proof fn lemma_last_sep_range(p: Seq<char>)
    ensures
        -1 <= last_sep(p) < p.len(),
        forall|i: int| last_sep(p) < i < p.len() ==> p[i] != '/',
        last_sep(p) >= 0 ==> p[last_sep(p)] == '/',
    decreases p.len(),
{
    if p.len() > 0 && p.last() != '/' {
        lemma_last_sep_range(p.drop_last());
        assert forall|i: int| last_sep(p) < i < p.len() implies p[i] != '/' by {
            if i < p.len() - 1 {
                assert(p[i] == p.drop_last()[i]);
            }
        }
    }
}

/// Splits `path` into its directory part and its file name; `None` where it
/// has no file name.
pub fn split_path(path: &str) -> (r: Option<(String, String)>)
    ensures
        r is None <==> !has_file_name(path@),
        r matches Some((dir, name)) ==> dir@ == dir_part(path@) && name@ == base_name(path@),
{
    let n = path.unicode_len();
    let ghost p = path@;
    let mut end: usize = n;
    assert(p.subrange(0, n as int) =~= p);
    while end > 0 && (path.get_char(end - 1) == '/' || (end >= 2 && path.get_char(end - 1) == '.'
        && path.get_char(end - 2) == '/'))
        invariant
            n == p.len(),
            p == path@,
            end <= n,
            trim_tail(p) == trim_tail(p.subrange(0, end as int)),
        decreases end,
    {
        assert(p.subrange(0, end as int).drop_last() =~= p.subrange(0, end - 1));
        end = end - 1;
    }
    let ghost t = p.subrange(0, end as int);
    assert(trim_tail(t) == t);
    let mut start: usize = end;
    while start > 0 && path.get_char(start - 1) != '/'
        invariant
            n == p.len(),
            p == path@,
            start <= end <= n,
            t == p.subrange(0, end as int),
            last_sep(t) == last_sep(p.subrange(0, start as int)),
        decreases start,
    {
        assert(p.subrange(0, start as int).drop_last() =~= p.subrange(0, start - 1));
        start = start - 1;
    }
    proof {
        if start > 0 {
            assert(p.subrange(0, start as int).last() == '/');
        }
        assert(last_sep(t) == start - 1);
    }
    let name = path.substring_char(start, end);
    let dir = path.substring_char(0, start);
    assert(name@ =~= base_name(p));
    assert(dir@ =~= dir_part(p));
    let len = name.unicode_len();
    if len == 0 {
        return None;
    }
    if name.get_char(0) == '.' {
        if len == 1 {
            assert(name@ =~= seq!['.']);
            return None;
        }
        if len == 2 && name.get_char(1) == '.' {
            assert(name@ =~= seq!['.', '.']);
            return None;
        }
    }
    assert(name@ != seq!['.']) by {
        if len == 1 { assert(seq!['.'][0] == '.'); }
    }
    assert(name@ != seq!['.', '.']) by {
        if len == 2 { assert(seq!['.', '.'][0] == '.' && seq!['.', '.'][1] == '.'); }
    }
    Some((dir.to_string(), name.to_string()))
}

proof fn lemma_last_sep_append(d: Seq<char>, n: Seq<char>)
    requires
        forall|i: int| 0 <= i < n.len() ==> n[i] != '/',
    ensures
        last_sep(d + n) == last_sep(d),
    decreases n.len(),
{
    if n.len() == 0 {
        assert(d + n =~= d);
    } else {
        assert((d + n).last() == n.last());
        assert((d + n).drop_last() =~= d + n.drop_last());
        lemma_last_sep_append(d, n.drop_last());
    }
}

/// A file name put after the directory part of a path is that path's file
/// name, and leaves the directory part as it was.
pub proof fn lemma_join(p: Seq<char>, n: Seq<char>)
    requires
        names_file(n),
        forall|i: int| 0 <= i < n.len() ==> n[i] != '/',
    ensures
        base_name(dir_part(p) + n) == n,
        dir_part(dir_part(p) + n) == dir_part(p),
{
    let t = trim_tail(p);
    let d = dir_part(p);
    let j = d + n;
    lemma_last_sep_range(t);
    assert(j.last() == n.last());
    if n.len() >= 2 {
        assert(j[j.len() - 2] == n[n.len() - 2]);
    } else if n[0] == '.' {
        assert(n =~= seq!['.']);
    }
    assert(trim_tail(j) == j);
    lemma_last_sep_append(d, n);
    if d.len() > 0 {
        assert(d.last() == t[last_sep(t)]);
        assert(d.drop_last() =~= t.subrange(0, last_sep(t)));
    } else {
        assert(last_sep(d) == -1);
    }
    assert(last_sep(d) == d.len() - 1);
    assert(j.subrange(last_sep(j) + 1, j.len() as int) =~= n);
    assert(j.subrange(0, last_sep(j) + 1) =~= d);
}

} // verus!
