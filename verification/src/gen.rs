use vstd::prelude::*;

use crate::HDV_LEN;

verus! {

/// True when every element of the sequence is +1 or -1.
pub open spec fn is_bipolar(s: Seq<i32>) -> bool {
    forall|i: int| 0 <= i < s.len() ==> s[i] == 1 || s[i] == -1
}

/// Relies on rand::random::<bool>: draws a boolean from the thread-local
/// generator, with no promise about the outcome.
#[verifier::external_body]
fn coin_flip() -> bool {
    rand::random::<bool>()
}

/// Generate a single random hypervector of length 10,000 with a near 50%
/// spread of +1 and -1.
pub fn gen_hdv() -> (r: Vec<i32>)
    ensures
        r@.len() == HDV_LEN as int,
        is_bipolar(r@),
{
    let mut vec: Vec<i32> = Vec::new();
    let mut i: usize = 0;
    while i < HDV_LEN
        invariant
            i <= HDV_LEN,
            vec@.len() == i as int,
            is_bipolar(vec@),
        decreases HDV_LEN - i,
    {
        let toss: bool = coin_flip();
        if toss {
            vec.push(1);
        } else {
            vec.push(-1);
        }
        i = i + 1;
    }
    vec
}

/// Generate `num` random hypervectors of length 10,000, each with a near
/// 50% spread of +1 and -1. A non-positive count yields an empty matrix.
pub fn gen_hdv_matrix(num: i32) -> (m: Vec<Vec<i32>>)
    ensures
        m@.len() == (if num > 0 { num as int } else { 0 }),
        forall|i: int| 0 <= i < m@.len() ==> (#[trigger] m@[i])@.len() == HDV_LEN as int,
        forall|i: int| 0 <= i < m@.len() ==> is_bipolar((#[trigger] m@[i])@),
{
    let mut vec: Vec<Vec<i32>> = Vec::new();
    if num > 0 {
        let mut i: i32 = 0;
        while i < num
            invariant
                0 <= i <= num,
                vec@.len() == i as int,
                forall|j: int| 0 <= j < vec@.len() ==> (#[trigger] vec@[j])@.len() == HDV_LEN as int,
                forall|j: int| 0 <= j < vec@.len() ==> is_bipolar((#[trigger] vec@[j])@),
            decreases num - i,
        {
            vec.push(gen_hdv());
            i = i + 1;
        }
    }
    vec
}

/// Turn a sequence of coin tosses into a bipolar hypervector: a true toss
/// becomes +1 and a false toss becomes -1. This is the deterministic half
/// of every generator; the caller supplies the randomness.
pub fn hdv_from_tosses(tosses: &Vec<bool>) -> (r: Vec<i32>)
    ensures
        r@.len() == tosses@.len(),
        forall|i: int| 0 <= i < r@.len() ==> r@[i] == (if tosses@[i] { 1i32 } else { -1i32 }),
        is_bipolar(r@),
{
    let mut vec: Vec<i32> = Vec::new();
    let mut i: usize = 0;
    while i < tosses.len()
        invariant
            i <= tosses@.len(),
            vec@.len() == i as int,
            forall|j: int| 0 <= j < i as int ==> vec@[j] == (if tosses@[j] { 1i32 } else { -1i32 }),
        decreases tosses@.len() - i,
    {
        if tosses[i] {
            vec.push(1);
        } else {
            vec.push(-1);
        }
        i = i + 1;
    }
    vec
}

} // verus!
