//! Strings as the engine takes them: bytes, closed by one zero byte.

use vstd::prelude::*;

verus! {

/// No byte of `s` is zero.
pub open spec fn nul_free(s: Seq<u8>) -> bool {
    forall|i: int| 0 <= i < s.len() ==> s[i] != 0u8
}

/// `c` is a string of the engine: its last byte is zero and no other is.
pub open spec fn is_c_string(c: Seq<u8>) -> bool {
    &&& c.len() > 0
    &&& c[c.len() - 1] == 0u8
    &&& nul_free(c.subrange(0, c.len() - 1))
}

/// Whether `p` can be handed to the engine as one string.
pub fn is_nul_free(p: &[u8]) -> (b: bool)
    ensures
        b == nul_free(p@),
{
    let mut i: usize = 0;
    while i < p.len()
        invariant
            i <= p.len(),
            forall|j: int| 0 <= j < i ==> p@[j] != 0u8,
        decreases p.len() - i,
    {
        if p[i] == 0 {
            return false;
        }
        i += 1;
    }
    true
}

/// The bytes of `p` followed by the closing zero byte.
pub fn to_cstr(p: &[u8]) -> (c: Vec<u8>)
    requires
        nul_free(p@),
    ensures
        c@ == p@.push(0u8),
        is_c_string(c@),
{
    let mut c: Vec<u8> = Vec::with_capacity(p.len());
    let mut i: usize = 0;
    while i < p.len()
        invariant
            i <= p.len(),
            c@ == p@.subrange(0, i as int),
        decreases p.len() - i,
    {
        c.push(p[i]);
        proof {
            assert(p@.subrange(0, i as int).push(p@[i as int]) =~= p@.subrange(0, i + 1));
        }
        i += 1;
    }
    proof {
        assert(p@.subrange(0, p@.len() as int) =~= p@);
    }
    c.push(0);
    proof {
        assert(c@.subrange(0, c@.len() - 1) =~= p@);
    }
    c
}

/// The closing byte is all that `to_cstr` adds: the text is found again by
/// dropping it.
pub proof fn lemma_c_string_text(p: Seq<u8>)
    requires
        nul_free(p),
    ensures
        is_c_string(p.push(0u8)),
        p.push(0u8).subrange(0, p.len() as int) == p,
        p.push(0u8).len() == p.len() + 1,
{
    assert(p.push(0u8).subrange(0, p.len() as int) =~= p);
}

} // verus!
