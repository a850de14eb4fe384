//! Splitting a log file path into its directory and file name, and deriving
//! the companion error-log path.
//!
//! The split means what std's `Path::parent` and `Path::file_name` mean on
//! `'/'`-separated paths: the file name is the last normal component of the
//! path — trailing separators and `.` chunks are ignored; a path that is
//! empty, all separators (a root), or whose last component is `..` (or a
//! lone leading `.`) has no file name component, and the whole path string
//! is then used as the file name. The directory is what remains of the path
//! once its last component is dropped: empty when there is no parent, the
//! single root separator when the component stands directly under the
//! root, and otherwise the prefix up to the end of the previous component.

use vstd::prelude::*;

use crate::config::{Config, LogPath};

verus! {

/// Index of the last `'/'` in `s`, or `-1` when there is none.
pub open spec fn split_index(s: Seq<char>) -> int
    decreases s.len(),
{
    if s.len() == 0 {
        -1
    } else if s[s.len() - 1] == '/' {
        s.len() - 1
    } else {
        split_index(s.drop_last())
    }
}

/// Every character is a separator.
pub open spec fn all_seps(p: Seq<char>) -> bool {
    forall|j: int| 0 <= j < p.len() ==> p[j] == '/'
}

/// Start of the final chunk of `s`: one past the last `'/'`, or `0` when
/// there is none. (The guard only restates `split_index`'s range, so the
/// definition carries its own bounds.)
pub open spec fn comp_start(s: Seq<char>) -> int {
    let i = split_index(s);
    if 0 <= i && i < s.len() - 1 {
        i + 1
    } else {
        0
    }
}

/// The chunk `s[b..e]` is a `.` component.
pub open spec fn is_cur_chunk(s: Seq<char>, b: int, e: int) -> bool {
    e - b == 1 && s[b] == '.'
}

/// The chunk `s[b..e]` is a `..` component.
pub open spec fn is_parent_chunk(s: Seq<char>, b: int, e: int) -> bool {
    e - b == 2 && s[b] == '.' && s[b + 1] == '.'
}

/// Bounds of the last path component of `s`, skipping trailing separators
/// and `.` chunks (a leading lone `.` is itself a component), or `None` when
/// the path is empty or holds nothing but separators and skipped `.` chunks.
pub open spec fn last_component(s: Seq<char>) -> Option<(int, int)>
    decreases s.len(),
{
    if s.len() == 0 {
        None
    } else if s[s.len() - 1] == '/' {
        last_component(s.drop_last())
    } else {
        let b = comp_start(s);
        if is_cur_chunk(s, b, s.len() as int) && b > 0 {
            last_component(s.take(b - 1))
        } else {
            Some((b, s.len() as int))
        }
    }
}

/// What remains of a directory prefix once its trailing separators and `.`
/// chunks are dropped: a root collapses to the single separator, a leading
/// lone `.` is kept, and the prefix otherwise ends at its last real
/// component.
pub open spec fn dir_prefix(p: Seq<char>) -> Seq<char>
    decreases p.len(),
{
    if p.len() == 0 {
        p
    } else if p[p.len() - 1] == '/' {
        if all_seps(p) {
            seq!['/']
        } else {
            dir_prefix(p.drop_last())
        }
    } else {
        let b = comp_start(p);
        if is_cur_chunk(p, b, p.len() as int) && b > 0 {
            if all_seps(p.take(b)) {
                seq!['/']
            } else {
                dir_prefix(p.take(b - 1))
            }
        } else {
            p
        }
    }
}

/// The directory part of a path: the parent as std renders it, or empty
/// when the path has no parent directory. A component standing directly
/// under the root gets the single separator as its directory.
pub open spec fn spec_directory(s: Seq<char>) -> Seq<char> {
    match last_component(s) {
        None => Seq::empty(),
        Some((b, e)) => if b == 0 {
            Seq::empty()
        } else if all_seps(s.take(b)) {
            seq!['/']
        } else {
            dir_prefix(s.take(b - 1))
        },
    }
}

/// The file name part of a path: its last normal component, or the whole
/// path when there is no file name component (empty, root, a final `..`, or
/// a lone `.`).
pub open spec fn spec_filename(s: Seq<char>) -> Seq<char> {
    match last_component(s) {
        None => s,
        Some((b, e)) => if is_parent_chunk(s, b, e) || (is_cur_chunk(s, b, e) && b == 0) {
            s
        } else {
            s.subrange(b, e)
        },
    }
}

/// `split_index` points at a `'/'` and nothing after it is a `'/'`.
proof fn lemma_split_index_props(s: Seq<char>)
    ensures
        -1 <= split_index(s) < s.len(),
        split_index(s) >= 0 ==> s[split_index(s)] == '/',
        forall|j: int| split_index(s) < j < s.len() ==> s[j] != '/',
    decreases s.len(),
{
    if s.len() == 0 {
    } else if s[s.len() - 1] == '/' {
    } else {
        lemma_split_index_props(s.drop_last());
        assert forall|j: int| split_index(s) < j < s.len() implies s[j] != '/' by {
            if j < s.len() - 1 {
                assert(s.drop_last()[j] == s[j]);
            }
        }
    }
}

/// A `'/'` with none after it stands at `split_index`.
proof fn lemma_split_index_at(s: Seq<char>, k: int)
    requires
        0 <= k < s.len(),
        s[k] == '/',
        forall|j: int| k < j < s.len() ==> s[j] != '/',
    ensures
        split_index(s) == k,
    decreases s.len(),
{
    if k == s.len() - 1 {
    } else {
        assert(s[s.len() - 1] != '/');
        assert(s.drop_last()[k] == s[k]);
        assert forall|j: int| k < j < s.drop_last().len() implies s.drop_last()[j] != '/' by {
            assert(s.drop_last()[j] == s[j]);
        }
        lemma_split_index_at(s.drop_last(), k);
    }
}

/// Without any `'/'` the split index is `-1`.
proof fn lemma_split_index_none(s: Seq<char>)
    requires
        forall|j: int| 0 <= j < s.len() ==> s[j] != '/',
    ensures
        split_index(s) == -1,
    decreases s.len(),
{
    if s.len() > 0 {
        assert forall|j: int| 0 <= j < s.drop_last().len() implies s.drop_last()[j] != '/' by {
            assert(s.drop_last()[j] == s[j]);
        }
        lemma_split_index_none(s.drop_last());
    }
}

/// Position of the last `'/'` among the first `e` characters, if any.
fn find_last_slash_before(path: &str, e: usize) -> (r: Option<usize>)
    requires
        e <= path@.len(),
    ensures
        match r {
            Some(k) => k < e && split_index(path@.take(e as int)) == k as int,
            None => split_index(path@.take(e as int)) == -1,
        },
{
    let mut i = e;
    while i > 0
        invariant
            i <= e <= path@.len(),
            forall|j: int| i <= j < e ==> path@[j] != '/',
        decreases i,
    {
        let c = path.get_char(i - 1);
        if c == '/' {
            proof {
                let s = path@.take(e as int);
                assert forall|j: int| i - 1 < j < s.len() implies s[j] != '/' by {
                    assert(s[j] == path@[j]);
                }
                assert(s[i - 1] == path@[i - 1]);
                lemma_split_index_at(s, i - 1);
            }
            return Some(i - 1);
        }
        i = i - 1;
    }
    proof {
        let s = path@.take(e as int);
        assert forall|j: int| 0 <= j < s.len() implies s[j] != '/' by {
            assert(s[j] == path@[j]);
        }
        lemma_split_index_none(s);
    }
    None
}

/// Whether the first `m` characters are all separators.
fn all_seps_upto(path: &str, m: usize) -> (r: bool)
    requires
        m <= path@.len(),
    ensures
        r == all_seps(path@.take(m as int)),
{
    let mut i: usize = 0;
    while i < m
        invariant
            i <= m <= path@.len(),
            forall|j: int| 0 <= j < i ==> path@[j] == '/',
        decreases m - i,
    {
        if path.get_char(i) != '/' {
            proof {
                assert(path@.take(m as int)[i as int] == path@[i as int]);
            }
            return false;
        }
        i = i + 1;
    }
    proof {
        assert forall|j: int| 0 <= j < path@.take(m as int).len() implies path@.take(m as int)[j]
            == '/' by {
            assert(path@.take(m as int)[j] == path@[j]);
        }
    }
    true
}

/// Bounds of the last path component, if any.
fn last_component_exec(path: &str) -> (r: Option<(usize, usize)>)
    ensures
        match r {
            Some(be) => be.0 < be.1 <= path@.len() && last_component(path@) == Some(
                (be.0 as int, be.1 as int),
            ),
            None => last_component(path@) is None,
        },
{
    let n = path.unicode_len();
    let mut e = n;
    proof {
        assert(path@.take(n as int) =~= path@);
    }
    loop
        invariant
            e <= n,
            n == path@.len(),
            last_component(path@) == last_component(path@.take(e as int)),
        decreases e,
    {
        if e == 0 {
            proof {
                assert(path@.take(0) =~= Seq::<char>::empty());
            }
            return None;
        }
        if path.get_char(e - 1) == '/' {
            proof {
                assert(path@.take(e as int).drop_last() =~= path@.take(e as int - 1));
            }
            e = e - 1;
            continue;
        }
        let b = match find_last_slash_before(path, e) {
            Some(k) => k + 1,
            None => 0,
        };
        proof {
            let s = path@.take(e as int);
            lemma_split_index_props(s);
            assert(s[e as int - 1] == path@[e as int - 1]);
            assert(comp_start(s) == b as int);
            assert(b < e);
        }
        if e - b == 1 && path.get_char(b) == '.' && b > 0 {
            proof {
                let s = path@.take(e as int);
                assert(s[b as int] == path@[b as int]);
                assert(s.take(b as int - 1) =~= path@.take(b as int - 1));
            }
            e = b - 1;
            continue;
        }
        proof {
            let s = path@.take(e as int);
            assert(s[b as int] == path@[b as int]);
            assert(last_component(s) == Some((b as int, e as int)));
        }
        return Some((b, e));
    }
}

/// What remains of the directory prefix `path[0..m]` once its trailing
/// separators and `.` chunks are dropped.
fn dir_prefix_exec(path: &str, m0: usize) -> (r: String)
    requires
        m0 <= path@.len(),
    ensures
        r@ == dir_prefix(path@.take(m0 as int)),
{
    let mut m = m0;
    loop
        invariant
            m <= m0 <= path@.len(),
            dir_prefix(path@.take(m0 as int)) == dir_prefix(path@.take(m as int)),
        decreases m,
    {
        if m == 0 {
            proof {
                assert(path@.take(0) =~= Seq::<char>::empty());
            }
            return String::new();
        }
        if path.get_char(m - 1) == '/' {
            if all_seps_upto(path, m) {
                proof {
                    reveal_strlit("/");
                    assert("/"@ =~= seq!['/']);
                }
                return "/".to_owned();
            }
            proof {
                assert(path@.take(m as int).drop_last() =~= path@.take(m as int - 1));
            }
            m = m - 1;
            continue;
        }
        let b = match find_last_slash_before(path, m) {
            Some(k) => k + 1,
            None => 0,
        };
        proof {
            let p = path@.take(m as int);
            lemma_split_index_props(p);
            assert(p[m as int - 1] == path@[m as int - 1]);
            assert(comp_start(p) == b as int);
            assert(b < m);
        }
        if m - b == 1 && path.get_char(b) == '.' && b > 0 {
            proof {
                let p = path@.take(m as int);
                assert(p[b as int] == path@[b as int]);
                assert(p.take(b as int) =~= path@.take(b as int));
            }
            if all_seps_upto(path, b) {
                proof {
                    reveal_strlit("/");
                    assert("/"@ =~= seq!['/']);
                }
                return "/".to_owned();
            }
            proof {
                let p = path@.take(m as int);
                assert(p.take(b as int - 1) =~= path@.take(b as int - 1));
            }
            m = b - 1;
            continue;
        }
        proof {
            let p = path@.take(m as int);
            assert(p[b as int] == path@[b as int]);
            assert(dir_prefix(p) == p);
            assert(p =~= path@.subrange(0, m as int));
        }
        return path.substring_char(0, m).to_owned();
    }
}

/// Splits a path into its directory and file name parts.
pub fn split_path(path: &str) -> (r: LogPath)
    ensures
        r.directory@ == spec_directory(path@),
        r.filename@ == spec_filename(path@),
{
    match last_component_exec(path) {
        None => LogPath { directory: String::new(), filename: path.to_owned() },
        Some((b, e)) => {
            let is_parent = e - b == 2 && path.get_char(b) == '.' && path.get_char(b + 1) == '.';
            let is_lone_cur = b == 0 && e - b == 1 && path.get_char(b) == '.';
            let filename = if is_parent || is_lone_cur {
                path.to_owned()
            } else {
                path.substring_char(b, e).to_owned()
            };
            let directory = if b == 0 {
                String::new()
            } else if all_seps_upto(path, b) {
                proof {
                    reveal_strlit("/");
                    assert("/"@ =~= seq!['/']);
                }
                "/".to_owned()
            } else {
                dir_prefix_exec(path, b - 1)
            };
            LogPath { directory, filename }
        },
    }
}

/// The derived error-log path: same directory, file name prefixed `error_`.
pub fn derived_error_path(primary: &LogPath) -> (r: LogPath)
    ensures
        r.directory@ == primary.directory@,
        r.filename@ == "error_"@ + primary.filename@,
{
    let mut filename: String = "error_".to_owned();
    filename.append(primary.filename.as_str());
    LogPath { directory: primary.directory.clone(), filename }
}

impl Config {
    /// Splits `path` into directory and file name.
    pub fn build_path(path: &String) -> (r: LogPath)
        ensures
            r.directory@ == spec_directory(path@),
            r.filename@ == spec_filename(path@),
    {
        split_path(path.as_str())
    }

    /// The primary log path, split, when a primary log file is configured.
    pub fn log_path(&self) -> (r: Option<LogPath>)
        ensures
            match r {
                Some(lp) => self.log_path matches Some(p) && lp.directory@ == spec_directory(p@)
                    && lp.filename@ == spec_filename(p@),
                None => self.log_path is None,
            },
    {
        match &self.log_path {
            Some(p) => Some(Self::build_path(p)),
            None => None,
        }
    }

    /// The explicit error log path, split, when one is configured.
    pub fn log_error_path(&self) -> (r: Option<LogPath>)
        ensures
            match r {
                Some(lp) => self.log_error_path matches Some(p) && lp.directory@ == spec_directory(
                    p@,
                ) && lp.filename@ == spec_filename(p@),
                None => self.log_error_path is None,
            },
    {
        match &self.log_error_path {
            Some(p) => Some(Self::build_path(p)),
            None => None,
        }
    }
}

} // verus!
