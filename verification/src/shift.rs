use vstd::prelude::*;
use vstd::arithmetic::div_mod::lemma_mod_self_0;
use vstd::arithmetic::div_mod::lemma_small_mod;

verus! {

/// The sequence `s` rotated right by `k` positions, `k` taken modulo the
/// length: the last `k % len` elements move to the front.
pub open spec fn rotate_right_spec(s: Seq<i32>, k: int) -> Seq<i32>
    recommends
        0 <= k,
{
    if s.len() == 0 {
        s
    } else {
        let r = k % (s.len() as int);
        s.subrange(s.len() - r, s.len() as int) + s.subrange(0, s.len() - r)
    }
}

/// Create a new HDV from an old one by shifting its elements `shift_amount`
/// positions to the right, cyclically; the amount is taken modulo the
/// vector's length. The input is consumed, not mutated.
pub fn shift_custom(vec: Vec<i32>, shift_amount: usize) -> (r: Vec<i32>)
    ensures
        r@ == rotate_right_spec(vec@, shift_amount as int),
{
    let len = vec.len();
    if len == 0 {
        return vec;
    }
    let k = shift_amount % len;
    let mut out: Vec<i32> = Vec::new();
    let mut i: usize = len - k;
    while i < len
        invariant
            vec@.len() == len,
            len - k <= i <= len,
            k < len,
            out@ == vec@.subrange(len - k, i as int),
        decreases len - i,
    {
        out.push(vec[i]);
        assert(out@ =~= vec@.subrange(len - k, i + 1));
        i = i + 1;
    }
    let mut j: usize = 0;
    while j < len - k
        invariant
            vec@.len() == len,
            j <= len - k,
            k < len,
            out@ == vec@.subrange(len - k, len as int) + vec@.subrange(0, j as int),
        decreases len - k - j,
    {
        out.push(vec[j]);
        assert(out@ =~= vec@.subrange(len - k, len as int) + vec@.subrange(0, j + 1));
        j = j + 1;
    }
    assert(out@ == rotate_right_spec(vec@, shift_amount as int));
    out
}

/// Create a new HDV from an old one by shifting its elements one position
/// to the right, cyclically (the last element moves to the front).
pub fn shift(vec: Vec<i32>) -> (r: Vec<i32>)
    ensures
        r@ == rotate_right_spec(vec@, 1),
{
    shift_custom(vec, 1)
}

/// Rotating a vector by its own length is the identity: a full rotation
/// brings every element back to its place.
pub proof fn lemma_shift_full_rotation(v: Seq<i32>)
    ensures
        rotate_right_spec(v, v.len() as int) == v,
{
    if v.len() > 0 {
        lemma_mod_self_0(v.len() as int);
        assert(rotate_right_spec(v, v.len() as int) =~= v);
    }
}

/// Rotating by one position twice is the same as rotating by two at once.
pub proof fn lemma_shift_twice(v: Seq<i32>)
    ensures
        rotate_right_spec(rotate_right_spec(v, 1), 1) == rotate_right_spec(v, 2),
{
    let n = v.len() as int;
    if n == 1 {
        assert(rotate_right_spec(v, 1) =~= v);
        assert(rotate_right_spec(v, 2) =~= v);
    } else if n == 2 {
        lemma_small_mod(1nat, 2nat);
        lemma_mod_self_0(2);
        assert(rotate_right_spec(rotate_right_spec(v, 1), 1) =~= rotate_right_spec(v, 2));
    } else if n > 2 {
        lemma_small_mod(1nat, n as nat);
        lemma_small_mod(2nat, n as nat);
        assert(rotate_right_spec(rotate_right_spec(v, 1), 1) =~= rotate_right_spec(v, 2));
    }
}

} // verus!
