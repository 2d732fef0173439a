//! Directory listings: which enumerated entries are shown, and in what order.
//!
//! A directory entry is a bare name together with a flag saying whether it is
//! a directory. The primary pane keeps every directory and every file whose
//! name ends case-insensitively in `.mkv`; the sidebar keeps only directories
//! whose names do not start with `.`. In both listings directories come
//! first, and each group keeps the enumeration order. An unreadable
//! directory yields an empty listing rather than an error.

use vstd::prelude::*;
use vstd::string::*;

verus! {

/// One directory entry as the enumeration reports it: the bare name (no path
/// separators) and whether the entry is a directory.
pub type DirEntry = (String, bool);

/// A name passes the video filter when it ends, case-insensitively, in `.mkv`.
pub open spec fn is_video_name(name: Seq<char>) -> bool {
    &&& name.len() >= 4
    &&& name[name.len() - 4] == '.'
    &&& (name[name.len() - 3] == 'm' || name[name.len() - 3] == 'M')
    &&& (name[name.len() - 2] == 'k' || name[name.len() - 2] == 'K')
    &&& (name[name.len() - 1] == 'v' || name[name.len() - 1] == 'V')
}

/// A hidden entry: its name starts with `.`.
pub open spec fn is_hidden_name(name: Seq<char>) -> bool {
    name.len() > 0 && name[0] == '.'
}

/// The directories kept by the primary listing: every directory, in
/// enumeration order.
pub open spec fn primary_dirs(entries: Seq<DirEntry>) -> Seq<DirEntry> {
    entries.filter(|e: DirEntry| e.1)
}

/// The files kept by the primary listing: exactly those whose name passes
/// the video filter, in enumeration order.
pub open spec fn primary_files(entries: Seq<DirEntry>) -> Seq<DirEntry> {
    entries.filter(|e: DirEntry| !e.1 && is_video_name(e.0@))
}

/// The primary listing: all kept directories, then all kept files.
pub open spec fn primary_listing(entries: Seq<DirEntry>) -> Seq<DirEntry> {
    primary_dirs(entries) + primary_files(entries)
}

/// The sidebar listing: only directories, and only those not hidden.
pub open spec fn sidebar_listing(entries: Seq<DirEntry>) -> Seq<DirEntry> {
    entries.filter(|e: DirEntry| e.1 && !is_hidden_name(e.0@))
}

/// Decides the video filter for one file name.
pub fn is_video_file_name(name: &str) -> (r: bool)
    ensures
        r == is_video_name(name@),
{
    let n = name.unicode_len();
    if n < 4 {
        return false;
    }
    let c0 = name.get_char(n - 4);
    let c1 = name.get_char(n - 3);
    let c2 = name.get_char(n - 2);
    let c3 = name.get_char(n - 1);
    c0 == '.' && (c1 == 'm' || c1 == 'M') && (c2 == 'k' || c2 == 'K') && (c3 == 'v' || c3 == 'V')
}

/// Decides whether one entry name is hidden.
pub fn is_hidden_entry_name(name: &str) -> (r: bool)
    ensures
        r == is_hidden_name(name@),
{
    let n = name.unicode_len();
    n > 0 && name.get_char(0) == '.'
}

/// Filtering one more element filters the sequence so far and keeps or drops
/// that element.
proof fn lemma_filter_push<A>(s: Seq<A>, pred: spec_fn(A) -> bool, x: A)
    ensures
        s.push(x).filter(pred) == if pred(x) {
            s.filter(pred).push(x)
        } else {
            s.filter(pred)
        },
{
    reveal(Seq::filter);
    assert(s.push(x).drop_last() =~= s);
    assert(s.push(x).last() == x);
}

/// An element is in the filtered sequence exactly when it is in the
/// sequence and passes the filter.
proof fn lemma_filter_membership<A>(s: Seq<A>, pred: spec_fn(A) -> bool, x: A)
    ensures
        s.filter(pred).contains(x) <==> (s.contains(x) && pred(x)),
    decreases s.len(),
{
    reveal(Seq::filter);
    if s.len() == 0 {
        assert(!s.contains(x));
        assert(!s.filter(pred).contains(x));
    } else {
        lemma_filter_membership(s.drop_last(), pred, x);
        let t = s.drop_last();
        assert(s.contains(x) <==> (t.contains(x) || s.last() == x)) by {
            if s.contains(x) {
                let i = choose|i: int| 0 <= i < s.len() && s[i] == x;
                if i < s.len() - 1 {
                    assert(t[i] == x);
                }
            }
            if t.contains(x) {
                let i = choose|i: int| 0 <= i < t.len() && t[i] == x;
                assert(s[i] == x);
            }
            if s.last() == x {
                assert(s[s.len() - 1] == x);
            }
        }
        if pred(s.last()) {
            assert(s.filter(pred) == t.filter(pred).push(s.last()));
            assert(s.filter(pred).contains(x) <==> (t.filter(pred).contains(x) || s.last() == x))
                by {
                let u = t.filter(pred);
                if u.contains(x) {
                    let i = choose|i: int| 0 <= i < u.len() && u[i] == x;
                    assert(u.push(s.last())[i] == x);
                }
                if u.push(s.last()).contains(x) {
                    let i = choose|i: int| 0 <= i < u.len() + 1 && u.push(s.last())[i] == x;
                    if i < u.len() {
                        assert(u[i] == x);
                    }
                }
            }
        }
    }
}

/// Filtering keeps a sequence whose elements all pass, and empties one
/// whose elements all fail.
proof fn lemma_filter_saturated<A>(s: Seq<A>, pred: spec_fn(A) -> bool)
    ensures
        (forall|i: int| 0 <= i < s.len() ==> pred(#[trigger] s[i])) ==> s.filter(pred) == s,
        (forall|i: int| 0 <= i < s.len() ==> !pred(#[trigger] s[i])) ==> s.filter(pred)
            == Seq::<A>::empty(),
    decreases s.len(),
{
    reveal(Seq::filter);
    if s.len() > 0 {
        lemma_filter_saturated(s.drop_last(), pred);
        if forall|i: int| 0 <= i < s.len() ==> pred(#[trigger] s[i]) {
            assert(s.drop_last().filter(pred).push(s.last()) =~= s);
        }
    }
}

/// Law: in a primary listing every directory stands before every file,
/// every enumerated directory is listed, and each group — the directories
/// and the files — keeps the enumeration order of the group.
pub proof fn lemma_primary_listing_directories_first(entries: Seq<DirEntry>)
    ensures
        forall|i: int, j: int|
            0 <= i < j < primary_listing(entries).len() && !(#[trigger] primary_listing(
                entries,
            )[i]).1 ==> !(#[trigger] primary_listing(entries)[j]).1,
        forall|k: int|
            0 <= k < entries.len() && (#[trigger] entries[k]).1 ==> primary_listing(
                entries,
            ).contains(entries[k]),
        primary_listing(entries).filter(|e: DirEntry| e.1) == primary_dirs(entries),
        primary_listing(entries).filter(|e: DirEntry| !e.1) == primary_files(entries),
{
    broadcast use vstd::seq_lib::group_filter_ensures;

    let l = primary_listing(entries);
    let d = primary_dirs(entries);
    let f = primary_files(entries);
    assert forall|i: int, j: int| 0 <= i < j < l.len() && !l[i].1 implies !l[j].1 by {
        if i < d.len() {
            assert(l[i] == d[i]);
            assert(d[i].1);
        }
        assert(l[j] == f[j - d.len()]);
        assert(!f[j - d.len()].1);
    }
    assert forall|k: int| 0 <= k < entries.len() && entries[k].1 implies l.contains(
        entries[k],
    ) by {
        assert(d.contains(entries[k]));
        let i = choose|i: int| 0 <= i < d.len() && d[i] == entries[k];
        assert(l[i] == entries[k]);
    }
    let keep_dir = |e: DirEntry| e.1;
    let keep_file = |e: DirEntry| !e.1;
    Seq::filter_distributes_over_add(d, f, keep_dir);
    Seq::filter_distributes_over_add(d, f, keep_file);
    lemma_filter_saturated(d, keep_dir);
    lemma_filter_saturated(f, keep_dir);
    lemma_filter_saturated(d, keep_file);
    lemma_filter_saturated(f, keep_file);
    assert(d.filter(keep_dir) + f.filter(keep_dir) =~= d);
    assert(d.filter(keep_file) + f.filter(keep_file) =~= f);
}

/// Law: a file stands in the primary listing exactly when it was enumerated
/// and its name ends, case-insensitively, in `.mkv`.
pub proof fn lemma_primary_listing_file_membership(entries: Seq<DirEntry>, e: DirEntry)
    requires
        !e.1,
    ensures
        primary_listing(entries).contains(e) <==> (entries.contains(e) && is_video_name(e.0@)),
{
    let l = primary_listing(entries);
    let d = primary_dirs(entries);
    let f = primary_files(entries);
    lemma_filter_membership(entries, |x: DirEntry| x.1, e);
    lemma_filter_membership(entries, |x: DirEntry| !x.1 && is_video_name(x.0@), e);
    assert(l.contains(e) <==> (d.contains(e) || f.contains(e))) by {
        if d.contains(e) {
            let i = choose|i: int| 0 <= i < d.len() && d[i] == e;
            assert(l[i] == e);
        }
        if f.contains(e) {
            let i = choose|i: int| 0 <= i < f.len() && f[i] == e;
            assert(l[d.len() + i] == e);
        }
        if l.contains(e) {
            let i = choose|i: int| 0 <= i < l.len() && l[i] == e;
            if i < d.len() {
                assert(d[i] == e);
            } else {
                assert(f[i - d.len()] == e);
            }
        }
    }
}

/// Builds the primary listing from the raw entries of one directory.
pub fn build_primary_listing(entries: &Vec<DirEntry>) -> (r: Vec<DirEntry>)
    ensures
        r@ == primary_listing(entries@),
{
    let mut dirs: Vec<DirEntry> = Vec::new();
    let mut files: Vec<DirEntry> = Vec::new();
    let n = entries.len();
    let mut i: usize = 0;
    while i < n
        invariant
            i <= n,
            n == entries@.len(),
            dirs@ == primary_dirs(entries@.take(i as int)),
            files@ == primary_files(entries@.take(i as int)),
        decreases n - i,
    {
        let name = entries[i].0.clone();
        let is_dir = entries[i].1;
        proof {
            assert(entries@.take(i + 1) =~= entries@.take(i as int).push(entries@[i as int]));
            lemma_filter_push(entries@.take(i as int), |e: DirEntry| e.1, entries@[i as int]);
            lemma_filter_push(
                entries@.take(i as int),
                |e: DirEntry| !e.1 && is_video_name(e.0@),
                entries@[i as int],
            );
        }
        if is_dir {
            dirs.push((name, true));
        } else if is_video_file_name(name.as_str()) {
            files.push((name, false));
        }
        i = i + 1;
    }
    proof {
        assert(entries@.take(n as int) =~= entries@);
    }
    dirs.append(&mut files);
    dirs
}

/// Builds the sidebar listing from the raw entries of one directory.
pub fn build_sidebar_listing(entries: &Vec<DirEntry>) -> (r: Vec<DirEntry>)
    ensures
        r@ == sidebar_listing(entries@),
{
    let mut dirs: Vec<DirEntry> = Vec::new();
    let n = entries.len();
    let mut i: usize = 0;
    while i < n
        invariant
            i <= n,
            n == entries@.len(),
            dirs@ == sidebar_listing(entries@.take(i as int)),
        decreases n - i,
    {
        let name = entries[i].0.clone();
        let is_dir = entries[i].1;
        proof {
            assert(entries@.take(i + 1) =~= entries@.take(i as int).push(entries@[i as int]));
            lemma_filter_push(
                entries@.take(i as int),
                |e: DirEntry| e.1 && !is_hidden_name(e.0@),
                entries@[i as int],
            );
        }
        if is_dir && !is_hidden_entry_name(name.as_str()) {
            dirs.push((name, true));
        }
        i = i + 1;
    }
    proof {
        assert(entries@.take(n as int) =~= entries@);
    }
    dirs
}

/// The primary pane's `list`: `read` is the outcome of enumerating the
/// directory, `None` when it could not be read. An unreadable directory
/// yields an empty listing, never an error.
pub fn list_primary(read: Option<Vec<DirEntry>>) -> (r: Vec<DirEntry>)
    ensures
        (match read {
            Some(entries) => r@ == primary_listing(entries@),
            None => r@ == Seq::<DirEntry>::empty(),
        }),
{
    match read {
        Some(entries) => build_primary_listing(&entries),
        None => Vec::new(),
    }
}

/// The sidebar's `list`: as [`list_primary`], with the sidebar filter.
pub fn list_sidebar(read: Option<Vec<DirEntry>>) -> (r: Vec<DirEntry>)
    ensures
        (match read {
            Some(entries) => r@ == sidebar_listing(entries@),
            None => r@ == Seq::<DirEntry>::empty(),
        }),
{
    match read {
        Some(entries) => build_sidebar_listing(&entries),
        None => Vec::new(),
    }
}

} // verus!
