use vstd::prelude::*;

verus! {

/// Copies `s[from..to]` into a new vector.
pub(crate) fn copy_range(s: &Vec<u8>, from: usize, to: usize) -> (r: Vec<u8>)
    requires
        from <= to <= s@.len(),
    ensures
        r@ == s@.subrange(from as int, to as int),
{
    let mut r: Vec<u8> = Vec::new();
    let mut k: usize = from;
    while k < to
        invariant
            from <= k <= to <= s@.len(),
            r@ == s@.subrange(from as int, k as int),
        decreases to - k,
    {
        r.push(s[k]);
        k = k + 1;
        assert(r@ =~= s@.subrange(from as int, k as int));
    }
    r
}

/// Whether `a` and `b` hold the same bytes.
pub(crate) fn bytes_equal(a: &Vec<u8>, b: &Vec<u8>) -> (r: bool)
    ensures
        r == (a@ == b@),
{
    if a.len() != b.len() {
        return false;
    }
    let mut k: usize = 0;
    while k < a.len()
        invariant
            k <= a@.len() == b@.len(),
            forall|j: int| 0 <= j < k ==> a@[j] == b@[j],
        decreases a@.len() - k,
    {
        if a[k] != b[k] {
            return false;
        }
        k = k + 1;
    }
    assert(a@ =~= b@);
    true
}

} // verus!
