//! Byte-string sanitation: every string handed across the foreign boundary or
//! stored in the status snapshot must be free of embedded null bytes, so that
//! it can be carried as a C-style null-terminated string.

use vstd::prelude::*;

verus! {

/// The bytes of `s` with every null byte removed, order otherwise kept.
pub open spec fn strip_nulls(s: Seq<u8>) -> Seq<u8>
    decreases s.len(),
{
    if s.len() == 0 {
        Seq::empty()
    } else {
        let rest = strip_nulls(s.drop_last());
        if s.last() == 0u8 {
            rest
        } else {
            rest.push(s.last())
        }
    }
}

/// Law: a sanitized string contains no null byte before its terminator.
pub proof fn lemma_strip_nulls_no_null(s: Seq<u8>)
    ensures
        forall|i: int| 0 <= i < strip_nulls(s).len() ==> strip_nulls(s)[i] != 0u8,
    decreases s.len(),
{
    if s.len() > 0 {
        lemma_strip_nulls_no_null(s.drop_last());
        if s.last() != 0u8 {
            let rest = strip_nulls(s.drop_last());
            assert(strip_nulls(s) == rest.push(s.last()));
            assert(forall|i: int|
                0 <= i < rest.push(s.last()).len() ==> rest.push(s.last())[i] != 0u8);
        }
    }
}

/// Removes every null byte from `v`, keeping the rest in order.
pub fn sanitize_bytes(v: &Vec<u8>) -> (r: Vec<u8>)
    ensures
        r@ == strip_nulls(v@),
        forall|i: int| 0 <= i < r@.len() ==> r@[i] != 0u8,
{
    let mut out: Vec<u8> = Vec::new();
    let mut i: usize = 0;
    while i < v.len()
        invariant
            i <= v.len(),
            out@ == strip_nulls(v@.take(i as int)),
        decreases v.len() - i,
    {
        let b = v[i];
        proof {
            assert(v@.take(i + 1).drop_last() =~= v@.take(i as int));
            assert(v@.take(i + 1).last() == v@[i as int]);
        }
        if b != 0 {
            out.push(b);
        }
        i = i + 1;
    }
    proof {
        assert(v@.take(v@.len() as int) =~= v@);
        lemma_strip_nulls_no_null(v@);
    }
    out
}

/// Copies a byte string.
pub fn clone_bytes(v: &Vec<u8>) -> (r: Vec<u8>)
    ensures
        r@ == v@,
{
    vstd::slice::slice_to_vec(v.as_slice())
}

/// True exactly when the two byte strings hold the same bytes.
pub fn bytes_eq(a: &[u8], b: &[u8]) -> (r: bool)
    ensures
        r == (a@ == b@),
{
    if a.len() != b.len() {
        proof {
            assert(a@ != b@);
        }
        return false;
    }
    let mut i: usize = 0;
    while i < a.len()
        invariant
            i <= a.len(),
            a@.len() == b@.len(),
            forall|j: int| 0 <= j < i ==> a@[j] == b@[j],
        decreases a.len() - i,
    {
        if a[i] != b[i] {
            proof {
                assert(a@[i as int] != b@[i as int]);
            }
            return false;
        }
        i = i + 1;
    }
    proof {
        assert(a@ =~= b@);
    }
    true
}

} // verus!
