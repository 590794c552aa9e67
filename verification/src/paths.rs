//! Path arithmetic for the session's working directory.
//!
//! Paths are byte strings; `/` separates components.  The session's working
//! directory is always absolute; a command argument is taken as absolute when
//! it starts with `/` and is otherwise joined onto the working directory.

use vstd::prelude::*;

verus! {

/// The path a command argument denotes, given the working directory: the
/// argument itself when absolute, the working directory when the argument is
/// empty, and the joined path otherwise.
pub open spec fn spec_resolve(cwd: Seq<u8>, arg: Seq<u8>) -> Seq<u8> {
    if arg.len() == 0 {
        cwd
    } else if arg[0] == 47 {
        arg
    } else if cwd.len() > 0 && cwd[cwd.len() - 1] == 47 {
        cwd + arg
    } else {
        cwd + seq![47u8] + arg
    }
}

/// Index of the last `/` strictly before `i`, or `-1` if there is none.
pub open spec fn last_slash(s: Seq<u8>, i: int) -> int
    decreases i,
{
    if i <= 0 {
        -1
    } else if s[i - 1] == 47 {
        i - 1
    } else {
        last_slash(s, i - 1)
    }
}

/// The parent directory of `p`: everything before the last `/`, but never
/// less than the root `/`.
pub open spec fn spec_parent(p: Seq<u8>) -> Seq<u8> {
    let j = last_slash(p, p.len() as int);
    if j <= 0 {
        seq![47u8]
    } else {
        p.subrange(0, j)
    }
}

/// A backwards scan that saw no `/` in `[j, i)` has reduced `last_slash`
/// at `i` to `last_slash` at `j`.
pub proof fn lemma_last_slash(s: Seq<u8>, j: int, i: int)
    requires
        0 <= j <= i <= s.len(),
        forall|k: int| j <= k < i ==> s[k] != 47,
    ensures
        last_slash(s, i) == last_slash(s, j),
    decreases i - j,
{
    if j < i {
        assert(s[i - 1] != 47);
        lemma_last_slash(s, j, i - 1);
    }
}

/// Append `src` to `dst`.
pub fn append_bytes(dst: &mut Vec<u8>, src: &[u8])
    ensures
        final(dst)@ == old(dst)@ + src@,
{
    let mut i: usize = 0;
    while i < src.len()
        invariant
            i <= src.len(),
            dst@ == old(dst)@ + src@.subrange(0, i as int),
        decreases src.len() - i,
    {
        dst.push(src[i]);
        i = i + 1;
        proof {
            assert(dst@ =~= old(dst)@ + src@.subrange(0, i as int));
        }
    }
    proof {
        assert(old(dst)@ + src@.subrange(0, src@.len() as int) =~= old(dst)@ + src@);
    }
}

/// Executable counterpart of `spec_resolve`.
pub fn resolve(cwd: &Vec<u8>, arg: &Vec<u8>) -> (r: Vec<u8>)
    ensures
        r@ == spec_resolve(cwd@, arg@),
{
    if arg.len() == 0 {
        crate::session::clone_bytes(cwd)
    } else if arg[0] == 47 {
        crate::session::clone_bytes(arg)
    } else {
        let mut r = crate::session::clone_bytes(cwd);
        if !(cwd.len() > 0 && cwd[cwd.len() - 1] == 47) {
            r.push(47);
        }
        append_bytes(&mut r, arg.as_slice());
        proof {
            assert(r@ =~= spec_resolve(cwd@, arg@));
        }
        r
    }
}

/// Executable counterpart of `spec_parent`.
pub fn parent(p: &Vec<u8>) -> (r: Vec<u8>)
    ensures
        r@ == spec_parent(p@),
{
    let n = p.len();
    let mut j: usize = n;
    while j > 0 && p[j - 1] != 47
        invariant
            j <= n,
            n == p@.len(),
            forall|k: int| j <= k < n ==> p@[k] != 47,
        decreases j,
    {
        j = j - 1;
    }
    proof {
        lemma_last_slash(p@, j as int, n as int);
    }
    if j <= 1 {
        // No slash at all, or only the leading one: the parent is the root.
        let mut r: Vec<u8> = Vec::new();
        r.push(47);
        proof {
            assert(r@ =~= seq![47u8]);
            if j == 1 {
                assert(last_slash(p@, 1) == 0);
            }
        }
        r
    } else {
        crate::router::copy_range(p.as_slice(), 0, j - 1)
    }
}

} // verus!
