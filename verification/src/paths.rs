//! Path manipulation on plain strings.
//!
//! Paths here are ordinary strings whose components are separated by `/`,
//! the shape in which the shell hands them over (the current directory plus
//! `/` plus a listed name). Three operations are needed: the file-name
//! component, the parent directory, and the audio output path that audio
//! extraction derives by replacing the extension with `.mp3`.

use vstd::prelude::*;
use vstd::string::*;

verus! {

/// The file-name component: everything after the last `/`, the whole path
/// when it has none, empty when the path is empty or ends in `/`.
pub open spec fn spec_file_name(p: Seq<char>) -> Seq<char>
    decreases p.len(),
{
    if p.len() == 0 {
        Seq::empty()
    } else if p.last() == '/' {
        Seq::empty()
    } else {
        spec_file_name(p.drop_last()).push(p.last())
    }
}

/// A path on which audio extraction is meaningful: it names a file.
pub open spec fn has_file_name(p: Seq<char>) -> bool {
    spec_file_name(p).len() > 0
}

/// The prefix left when the file name is removed: empty when the path holds
/// no `/`, otherwise everything up to and including the last `/`.
pub open spec fn spec_dir_prefix(p: Seq<char>) -> Seq<char> {
    p.take(p.len() - spec_file_name(p).len())
}

/// The parent directory: the path with its final component removed, the
/// root `/` kept as is, `None` when the path holds no `/` at all.
pub open spec fn spec_parent(p: Seq<char>) -> Option<Seq<char>> {
    let q = spec_dir_prefix(p);
    if q.len() == 0 {
        None
    } else if q.len() == 1 {
        Some(q)
    } else {
        Some(q.drop_last())
    }
}

/// The index of the last `.` of `f` before position `upto` that opens an
/// extension — a leading `.` (a hidden file) opens none — or `0` when there
/// is no such `.`.
pub open spec fn spec_ext_dot(f: Seq<char>, upto: int) -> int
    decreases upto,
{
    if upto <= 1 {
        0
    } else if f[upto - 1] == '.' {
        upto - 1
    } else {
        spec_ext_dot(f, upto - 1)
    }
}

/// The stem of a file name: everything before the last `.`, the whole name
/// when no `.` past the first character exists.
pub open spec fn spec_stem(f: Seq<char>) -> Seq<char> {
    let m = spec_ext_dot(f, f.len() as int);
    if m == 0 {
        f
    } else {
        f.take(m)
    }
}

/// The audio output path: same directory, same stem, `.mp3` extension.
pub open spec fn spec_audio_output(p: Seq<char>) -> Seq<char> {
    spec_dir_prefix(p) + spec_stem(spec_file_name(p)) + ".mp3"@
}

/// Why a command on a path was refused.
#[derive(Debug, Clone, Copy, PartialEq, Eq, Structural)]
pub enum PathError {
    /// The path has no file-name component.
    InvalidPath,
}

/// The file name is the suffix that starts right after the last `/`.
proof fn lemma_file_name_is_suffix(p: Seq<char>, k: int)
    requires
        0 <= k <= p.len(),
        k == 0 || p[k - 1] == '/',
        forall|j: int| k <= j < p.len() ==> p[j] != '/',
    ensures
        spec_file_name(p) == p.subrange(k, p.len() as int),
    decreases p.len(),
{
    if k == p.len() {
        if p.len() > 0 {
            assert(p.last() == '/');
        }
        assert(p.subrange(k, p.len() as int) =~= Seq::<char>::empty());
    } else {
        assert(p.last() != '/');
        lemma_file_name_is_suffix(p.drop_last(), k);
        assert(p.subrange(k, p.len() as int) =~= p.drop_last().subrange(
            k,
            p.len() - 1,
        ).push(p.last()));
    }
}

/// The extension dot is the last `.` past the first character.
proof fn lemma_ext_dot_at(f: Seq<char>, d: int, upto: int)
    requires
        1 <= d < upto <= f.len(),
        f[d] == '.',
        forall|j: int| d < j < upto ==> f[j] != '.',
    ensures
        spec_ext_dot(f, upto) == d,
    decreases upto,
{
    if upto - 1 > d {
        assert(f[upto - 1] != '.');
        lemma_ext_dot_at(f, d, upto - 1);
    }
}

/// Without a `.` past the first character there is no extension dot.
proof fn lemma_ext_dot_none(f: Seq<char>, upto: int)
    requires
        forall|j: int| 1 <= j < upto ==> f[j] != '.',
    ensures
        spec_ext_dot(f, upto) == 0,
    decreases upto,
{
    if upto > 1 {
        assert(f[upto - 1] != '.');
        lemma_ext_dot_none(f, upto - 1);
    }
}

/// Index just after the last `/` of `path`, or `0` when it has none.
fn file_name_start(path: &str, n: usize) -> (k: usize)
    requires
        n == path@.len(),
    ensures
        k <= n,
        k == 0 || path@[k - 1] == '/',
        forall|j: int| k <= j < n ==> path@[j] != '/',
{
    let mut k = n;
    while k > 0
        invariant
            k <= n,
            n == path@.len(),
            forall|j: int| k <= j < n ==> path@[j] != '/',
        decreases k,
    {
        if path.get_char(k - 1) == '/' {
            return k;
        }
        k = k - 1;
    }
    0
}

/// Index of the last `.` of `path` strictly after position `k`, or `n` when
/// there is none.
fn last_dot_after(path: &str, k: usize, n: usize) -> (m: usize)
    requires
        n == path@.len(),
        k < n,
    ensures
        k < m <= n,
        m < n ==> path@[m as int] == '.',
        forall|j: int| m < j < n ==> path@[j] != '.',
        m == n ==> forall|j: int| k < j < n ==> path@[j] != '.',
{
    let mut j = n;
    while j > k + 1
        invariant
            k < j <= n,
            n == path@.len(),
            forall|t: int| j <= t < n ==> path@[t] != '.',
        decreases j,
    {
        if path.get_char(j - 1) == '.' {
            return j - 1;
        }
        j = j - 1;
    }
    n
}

/// The parent directory of `path`: the path with its final component
/// removed, the root `/` kept, `None` for a path without any `/` (which has
/// no parent, so navigating up stays in place).
pub fn parent_of(path: &str) -> (r: Option<String>)
    ensures
        (match r {
            Some(s) => spec_parent(path@) matches Some(q) && s@ == q,
            None => spec_parent(path@) is None,
        }),
{
    let n = path.unicode_len();
    let k = file_name_start(path, n);
    proof {
        lemma_file_name_is_suffix(path@, k as int);
        assert(spec_dir_prefix(path@) =~= path@.subrange(0, k as int));
    }
    if k == 0 {
        return None;
    }
    if k == 1 {
        let root = path.substring_char(0, 1);
        Some(root.to_owned())
    } else {
        proof {
            assert(path@.subrange(0, k as int).drop_last() =~= path@.subrange(0, k - 1));
        }
        let prefix = path.substring_char(0, k - 1);
        Some(prefix.to_owned())
    }
}

/// Derives the audio output path for extraction: the input's directory and
/// stem with the extension replaced by `.mp3`. A path without a file-name
/// component is refused.
pub fn derive_audio_output(path: &str) -> (r: Result<String, PathError>)
    ensures
        has_file_name(path@) ==> (r matches Ok(out) && out@ == spec_audio_output(path@)),
        !has_file_name(path@) ==> r == Err::<String, PathError>(PathError::InvalidPath),
{
    let n = path.unicode_len();
    let k = file_name_start(path, n);
    proof {
        lemma_file_name_is_suffix(path@, k as int);
    }
    if k == n {
        proof {
            assert(path@.subrange(k as int, n as int) =~= Seq::<char>::empty());
        }
        return Err(PathError::InvalidPath);
    }
    let ghost f = path@.subrange(k as int, n as int);
    let m = last_dot_after(path, k, n);
    proof {
        assert(spec_dir_prefix(path@) =~= path@.subrange(0, k as int));
        if m < n {
            assert(f[m - k] == '.');
            assert forall|j: int| m - k < j < f.len() implies f[j] != '.' by {
                assert(path@[k + j] != '.');
            }
            lemma_ext_dot_at(f, m - k, f.len() as int);
            assert(f.take(m - k) =~= path@.subrange(k as int, m as int));
        } else {
            assert forall|j: int| 1 <= j < f.len() implies f[j] != '.' by {
                assert(path@[k + j] != '.');
            }
            lemma_ext_dot_none(f, f.len() as int);
            assert(f =~= path@.subrange(k as int, m as int));
        }
    }
    let prefix = path.substring_char(0, k);
    let stem = path.substring_char(k, m);
    let mut out = prefix.to_owned();
    out.append(stem);
    out.append(".mp3");
    Ok(out)
}

} // verus!
