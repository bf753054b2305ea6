//! Paths as `/`-separated text, the way the daemons name their files.
//!
//! A path is held as a `String`. Joining follows `PathBuf::push` on Unix; the
//! parent is cut at the last `/` and loses the separators before it, and the
//! final component is what follows the last `/`. This agrees with
//! `Path::parent` and `Path::file_name` on paths without a trailing separator
//! and without `.` components, such as the path of the running executable.

use vstd::prelude::*;
use crate::text::{decimal, decimal_string, is_digit, lemma_decimal_digits, lemma_decimal_injective};

verus! {

/// `rel` appended to `base` as `PathBuf::push` does on Unix: an absolute `rel`
/// replaces `base`, otherwise a `/` is put between them unless `base` is empty
/// or already ends with one.
pub open spec fn join_path(base: Seq<char>, rel: Seq<char>) -> Seq<char> {
    if rel.len() > 0 && rel[0] == '/' {
        rel
    } else if base.len() == 0 || base.last() == '/' {
        base + rel
    } else {
        base + seq!['/'] + rel
    }
}

/// The index of the last `/` in `p`, or -1 where there is none.
pub open spec fn last_sep(p: Seq<char>) -> int
    decreases p.len(),
{
    if p.len() == 0 {
        -1
    } else if p.last() == '/' {
        p.len() - 1
    } else {
        last_sep(p.drop_last())
    }
}

/// `p` without the separators at its end.
pub open spec fn trim_seps(p: Seq<char>) -> Seq<char>
    decreases p.len(),
{
    if p.len() > 0 && p.last() == '/' {
        trim_seps(p.drop_last())
    } else {
        p
    }
}

/// `p` without its final component: everything before the last `/` and the
/// separators that precede it, the root `/` itself where nothing else comes
/// before it, and the empty path where there is no separator at all.
pub open spec fn parent_path(p: Seq<char>) -> Seq<char> {
    let i = last_sep(p);
    if i < 0 {
        seq![]
    } else {
        let q = trim_seps(p.take(i));
        if q.len() == 0 {
            seq!['/']
        } else {
            q
        }
    }
}

proof fn lemma_trim_seps_at(p: Seq<char>, j: int)
    requires
        0 <= j <= p.len(),
        forall|k: int| j <= k < p.len() ==> p[k] == '/',
        j == 0 || p[j - 1] != '/',
    ensures
        trim_seps(p) == p.take(j),
    decreases p.len(),
{
    if p.len() > 0 && p.last() == '/' {
        let q = p.drop_last();
        if j == p.len() {
            assert(p[j - 1] == p.last());
        }
        lemma_trim_seps_at(q, j);
        assert(q.take(j) =~= p.take(j));
    } else {
        if j < p.len() {
            assert(p[p.len() - 1] == '/');
        }
        assert(p.take(j) =~= p);
    }
}

/// The final component of `p`: everything after the last `/`.
pub open spec fn file_name(p: Seq<char>) -> Seq<char> {
    p.skip(last_sep(p) + 1)
}

proof fn lemma_last_sep(p: Seq<char>)
    ensures
        -1 <= last_sep(p) < p.len(),
        last_sep(p) >= 0 ==> p[last_sep(p)] == '/',
        forall|j: int| last_sep(p) < j < p.len() ==> p[j] != '/',
    decreases p.len(),
{
    if p.len() > 0 && p.last() != '/' {
        let q = p.drop_last();
        lemma_last_sep(q);
        assert forall|j: int| last_sep(p) < j < p.len() implies p[j] != '/' by {
            if j < q.len() {
                assert(p[j] == q[j]);
            }
        }
    }
}

proof fn lemma_last_sep_at(p: Seq<char>, k: int)
    requires
        -1 <= k < p.len(),
        k >= 0 ==> p[k] == '/',
        forall|j: int| k < j < p.len() ==> p[j] != '/',
    ensures
        last_sep(p) == k,
    decreases p.len(),
{
    if p.len() > 0 && p.last() != '/' {
        lemma_last_sep_at(p.drop_last(), k);
    }
}

/// Finds the index of the last `/` in `p`.
fn find_last_sep(p: &str) -> (r: Option<usize>)
    ensures
        match r {
            Some(i) => i as int == last_sep(p@),
            None => last_sep(p@) == -1,
        },
{
    let n = p.unicode_len();
    let mut i = n;
    while i > 0
        invariant
            i <= n,
            n == p@.len(),
            forall|j: int| i <= j < n ==> p@[j] != '/',
        decreases i,
    {
        if p.get_char(i - 1) == '/' {
            proof {
                lemma_last_sep_at(p@, i - 1);
            }
            return Some(i - 1);
        }
        i = i - 1;
    }
    proof {
        lemma_last_sep_at(p@, -1);
    }
    None
}

/// Joins `rel` onto `base` (see [`join_path`]).
pub fn join(base: &str, rel: &str) -> (r: String)
    ensures
        r@ == join_path(base@, rel@),
{
    let rl = rel.unicode_len();
    if rl > 0 && rel.get_char(0) == '/' {
        return String::from_str(rel);
    }
    let bl = base.unicode_len();
    let mut r = String::from_str(base);
    if bl > 0 && base.get_char(bl - 1) != '/' {
        r.append("/");
        proof {
            reveal_strlit("/");
        }
    }
    r.append(rel);
    r
}

/// The parent of `p` (see [`parent_path`]).
pub fn parent(p: &str) -> (r: String)
    ensures
        r@ == parent_path(p@),
{
    proof {
        reveal_strlit("/");
        reveal_strlit("");
        lemma_last_sep(p@);
    }
    match find_last_sep(p) {
        None => String::from_str(""),
        Some(i) => {
            let mut j = i;
            while j > 0 && p.get_char(j - 1) == '/'
                invariant
                    j <= i,
                    i < p@.len(),
                    forall|k: int| j <= k < i ==> p@[k] == '/',
                decreases j,
            {
                j = j - 1;
            }
            proof {
                lemma_trim_seps_at(p@.take(i as int), j as int);
                assert(p@.take(i as int).take(j as int) =~= p@.take(j as int));
            }
            if j == 0 {
                String::from_str("/")
            } else {
                String::from_str(p.substring_char(0, j))
            }
        },
    }
}

/// Whether the final component of `p` is exactly `name`, as
/// `Path::ends_with(name)` answers for a single-component `name`.
pub fn file_name_is(p: &str, name: &str) -> (r: bool)
    ensures
        r == (file_name(p@) == name@),
{
    proof {
        lemma_last_sep(p@);
    }
    let n = p.unicode_len();
    let start: usize = match find_last_sep(p) {
        None => 0,
        Some(i) => i + 1,
    };
    let last = String::from_str(p.substring_char(start, n));
    let wanted = String::from_str(name);
    assert(last@ == file_name(p@));
    last == wanted
}

} // verus!

verus! {

/// Where a server binary named `server` is looked for beside the executable at
/// `exe`: the executable's directory, one level up where that directory is
/// `deps` (as for test binaries), and, where `skip_examples` holds, one more
/// level up where it is then `examples` (as for example binaries).
pub open spec fn server_beside(exe: Seq<char>, skip_examples: bool) -> Seq<char> {
    let dir = parent_path(exe);
    let dir = if file_name(dir) == "deps"@ {
        parent_path(dir)
    } else {
        dir
    };
    let dir = if skip_examples && file_name(dir) == "examples"@ {
        parent_path(dir)
    } else {
        dir
    };
    join_path(dir, "server"@)
}

/// The path of the `server` binary that belongs with the executable at `exe`
/// (see [`server_beside`]).
pub fn server_path_beside(exe: &str, skip_examples: bool) -> (r: String)
    ensures
        r@ == server_beside(exe@, skip_examples),
{
    let mut dir = parent(exe);
    if file_name_is(dir.as_str(), "deps") {
        dir = parent(dir.as_str());
    }
    if skip_examples && file_name_is(dir.as_str(), "examples") {
        dir = parent(dir.as_str());
    }
    join(dir.as_str(), "server")
}

/// The file `/tmp/llm-<port>.<ext>` that a daemon on `port` keeps.
pub open spec fn port_file_path(port: u16, ext: Seq<char>) -> Seq<char> {
    "/tmp/llm-"@ + decimal(port as nat) + "."@ + ext
}

/// Builds `/tmp/llm-<port>.<ext>` (see [`port_file_path`]).
pub fn port_file(port: u16, ext: &str) -> (r: String)
    ensures
        r@ == port_file_path(port, ext@),
{
    let mut r = String::from_str("/tmp/llm-");
    let digits = decimal_string(port as u64);
    r.append(digits.as_str());
    r.append(".");
    r.append(ext);
    r
}

} // verus!

verus! {

/// Daemons on different ports never share a file: `/tmp/llm-<port>.<ext>`
/// differs for different ports, whatever the extensions.
pub proof fn law_port_files_are_distinct(p1: u16, p2: u16, ext1: Seq<char>, ext2: Seq<char>)
    requires
        p1 != p2,
    ensures
        port_file_path(p1, ext1) != port_file_path(p2, ext2),
{
    let d1 = decimal(p1 as nat);
    let d2 = decimal(p2 as nat);
    let s1 = port_file_path(p1, ext1);
    let s2 = port_file_path(p2, ext2);
    let pre = "/tmp/llm-"@;
    lemma_decimal_digits(p1 as nat);
    lemma_decimal_digits(p2 as nat);
    if s1 == s2 {
        reveal_strlit("/tmp/llm-");
        reveal_strlit(".");
        let n = pre.len() as int;
        if d1.len() == d2.len() {
            assert forall|i: int| 0 <= i < d1.len() implies d1[i] == d2[i] by {
                assert(s1[n + i] == d1[i]);
                assert(s2[n + i] == d2[i]);
            }
            assert(d1 =~= d2);
            lemma_decimal_injective(p1 as nat, p2 as nat);
        } else if d1.len() < d2.len() {
            let k = d1.len() as int;
            assert(s1[n + k] == '.');
            assert(s2[n + k] == d2[k]);
            assert(is_digit(d2[k]));
        } else {
            let k = d2.len() as int;
            assert(s2[n + k] == '.');
            assert(s1[n + k] == d1[k]);
            assert(is_digit(d1[k]));
        }
    }
}

} // verus!
