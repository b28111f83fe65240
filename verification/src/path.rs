//! Paths as text, with `/` between components.

use vstd::prelude::*;
use vstd::string::*;

verus! {

/// Whether `path` starts at the root of the file system.
pub open spec fn is_absolute(path: Seq<char>) -> bool {
    path.len() > 0 && path[0] == '/'
}

/// `rel` placed under `base`: an absolute `rel` stands alone, and a separator
/// is put between the two unless `base` is empty or already ends in one.
pub open spec fn joined(base: Seq<char>, rel: Seq<char>) -> Seq<char> {
    if is_absolute(rel) {
        rel
    } else if base.len() == 0 || base[base.len() - 1] == '/' {
        base + rel
    } else {
        base + seq!['/'] + rel
    }
}

/// The path `rel` placed under `base`.
pub fn join(base: &str, rel: &str) -> (r: String)
    ensures
        r@ == joined(base@, rel@),
{
    let n = base.unicode_len();
    let m = rel.unicode_len();
    if m > 0 && rel.get_char(0) == '/' {
        return String::from_str(rel);
    }
    let mut out = String::from_str(base);
    if n > 0 && base.get_char(n - 1) != '/' {
        proof {
            reveal_strlit("/");
            assert("/"@ =~= seq!['/']);
        }
        out.append("/");
    }
    out.append(rel);
    out
}

/// Puts the path in `dir` under `path`.
pub fn set_root(path: &str, dir: &mut String)
    ensures
        final(dir)@ == joined(path@, old(dir)@),
{
    let moved = join(path, dir.as_str());
    *dir = moved;
}

/// The position of the last separator in `path`, or -1 where it has none.
pub open spec fn last_separator(path: Seq<char>) -> int
    decreases path.len(),
{
    if path.len() == 0 {
        -1
    } else if path.last() == '/' {
        path.len() - 1
    } else {
        last_separator(path.drop_last())
    }
}

/// The directory that holds the file at `path`: what stands before the last
/// separator. A path without a separator is held by the empty path, a path
/// directly under the root by the root; the empty path and the root are held
/// by nothing.
pub open spec fn directory_of(path: Seq<char>) -> Option<Seq<char>> {
    let at = last_separator(path);
    if path.len() == 0 {
        None
    } else if at < 0 {
        Some(Seq::empty())
    } else if at == 0 {
        if path.len() == 1 {
            None
        } else {
            Some(seq!['/'])
        }
    } else {
        Some(path.subrange(0, at))
    }
}

proof fn lemma_last_separator_skips(path: Seq<char>, k: int)
    requires
        0 <= k <= path.len(),
        forall|j: int| k <= j < path.len() ==> path[j] != '/',
    ensures
        last_separator(path) == last_separator(path.subrange(0, k)),
    decreases path.len() - k,
{
    if k == path.len() {
        assert(path.subrange(0, k) =~= path);
    } else {
        lemma_last_separator_skips(path.drop_last(), k);
        assert(path.drop_last().subrange(0, k) =~= path.subrange(0, k));
    }
}

/// The directory that holds the file at `path`.
pub fn directory(path: &str) -> (dir: Option<String>)
    ensures
        match dir {
            Some(d) => directory_of(path@) == Some(d@),
            None => directory_of(path@) is None,
        },
{
    let n = path.unicode_len();
    if n == 0 {
        return None;
    }
    let mut k: usize = n;
    while k > 0 && path.get_char(k - 1) != '/'
        invariant
            n == path@.len(),
            k <= n,
            forall|j: int| k <= j < n ==> path@[j] != '/',
        decreases k,
    {
        k -= 1;
    }
    proof {
        lemma_last_separator_skips(path@, k as int);
        let front = path@.subrange(0, k as int);
        if k > 0 {
            assert(front.last() == path@[k - 1]);
        }
        assert(last_separator(path@) == k - 1);
    }
    if k == 0 {
        Some(String::new())
    } else if k == 1 {
        if n == 1 {
            None
        } else {
            proof {
                reveal_strlit("/");
                assert("/"@ =~= seq!['/']);
            }
            Some(String::from_str("/"))
        }
    } else {
        Some(String::from_str(path.substring_char(0, k - 1)))
    }
}

/// A relative path stays below the directory it is joined to.
pub proof fn lemma_joined_keeps_base(base: Seq<char>, rel: Seq<char>)
    requires
        !is_absolute(rel),
    ensures
        joined(base, rel).len() >= base.len() + rel.len(),
        joined(base, rel).subrange(0, base.len() as int) == base,
        joined(base, rel).subrange(joined(base, rel).len() - rel.len(), joined(base, rel).len() as int)
            == rel,
{
    let j = joined(base, rel);
    assert(j.subrange(0, base.len() as int) =~= base);
    assert(j.subrange(j.len() - rel.len(), j.len() as int) =~= rel);
}

} // verus!
