//! Small executable helpers over character vectors, the representation in
//! which the library's scanners read and rebuild text.

use vstd::prelude::*;

verus! {

/// Appends all characters of `src` to `dst`.
pub fn push_chars(dst: &mut Vec<char>, src: &Vec<char>)
    ensures
        final(dst)@ == old(dst)@ + src@,
{
    let mut j: usize = 0;
    while j < src.len()
        invariant
            j <= src.len(),
            dst@ == old(dst)@ + src@.subrange(0, j as int),
        decreases src.len() - j,
    {
        let c = src[j];
        dst.push(c);
        proof {
            assert(src@.subrange(0, j + 1) =~= src@.subrange(0, j as int).push(c));
            assert(old(dst)@ + src@.subrange(0, j + 1) =~= (old(dst)@ + src@.subrange(
                0,
                j as int,
            )).push(c));
        }
        j = j + 1;
    }
    proof {
        assert(src@.subrange(0, src@.len() as int) =~= src@);
    }
}

/// Appends the characters `src[from..to]` to `dst`.
pub fn copy_range(dst: &mut Vec<char>, src: &Vec<char>, from: usize, to: usize)
    requires
        from <= to <= src.len(),
    ensures
        final(dst)@ == old(dst)@ + src@.subrange(from as int, to as int),
{
    let mut j: usize = from;
    while j < to
        invariant
            from <= j <= to <= src.len(),
            dst@ == old(dst)@ + src@.subrange(from as int, j as int),
        decreases to - j,
    {
        let c = src[j];
        dst.push(c);
        proof {
            assert(src@.subrange(from as int, j + 1) =~= src@.subrange(
                from as int,
                j as int,
            ).push(c));
            assert(old(dst)@ + src@.subrange(from as int, j + 1) =~= (old(dst)@ + src@.subrange(
                from as int,
                j as int,
            )).push(c));
        }
        j = j + 1;
    }
}

/// A fresh copy of a character vector.
pub fn clone_chars(v: &Vec<char>) -> (r: Vec<char>)
    ensures
        r@ == v@,
{
    let mut r: Vec<char> = Vec::new();
    push_chars(&mut r, v);
    proof {
        assert(Seq::<char>::empty() + v@ =~= v@);
    }
    r
}

/// Whether `src[from..to]` holds the same characters as `t`.
pub fn range_eq(src: &Vec<char>, from: usize, to: usize, t: &Vec<char>) -> (r: bool)
    requires
        from <= to <= src.len(),
    ensures
        r == (src@.subrange(from as int, to as int) == t@),
{
    let n = to - from;
    if t.len() != n {
        return false;
    }
    let mut j: usize = 0;
    while j < n
        invariant
            j <= n,
            from + n == to <= src.len(),
            t@.len() == n,
            forall|k: int| 0 <= k < j ==> src@[from + k] == t@[k],
        decreases n - j,
    {
        if src[from + j] != t[j] {
            return false;
        }
        j = j + 1;
    }
    proof {
        assert(src@.subrange(from as int, to as int) =~= t@);
    }
    true
}

} // verus!
