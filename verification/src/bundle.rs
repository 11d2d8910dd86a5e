use vstd::prelude::*;

use crate::error::HdvError;

verus! {

/// Element-wise consensus of two sequences of equal length: positions where
/// the two agree keep their value, positions where they differ become 0.
pub open spec fn bundle_pair_spec(a: Seq<i32>, b: Seq<i32>) -> Seq<i32>
    recommends
        a.len() == b.len(),
{
    Seq::new(a.len(), |i: int| if a[i] == b[i] { a[i] } else { 0i32 })
}

/// Bundle two hypervectors element-wise: where they agree the common value
/// is kept, where they differ the position collapses to 0. Fails when the
/// two vectors do not have the same length.
pub fn bundle_vec(vec1: Vec<i32>, vec2: Vec<i32>) -> (r: Result<Vec<i32>, HdvError>)
    ensures
        match r {
            Ok(v) => vec1@.len() == vec2@.len() && v@ == bundle_pair_spec(vec1@, vec2@),
            Err(e) => vec1@.len() != vec2@.len() && e == HdvError::InvalidArgument,
        },
{
    if vec1.len() != vec2.len() {
        return Err(HdvError::InvalidArgument);
    }
    let mut vec3: Vec<i32> = Vec::new();
    let mut i: usize = 0;
    while i < vec1.len()
        invariant
            vec1@.len() == vec2@.len(),
            i <= vec1@.len(),
            vec3@.len() == i as int,
            forall|j: int| 0 <= j < i as int ==> vec3@[j] == bundle_pair_spec(vec1@, vec2@)[j],
        decreases vec1@.len() - i,
    {
        if vec1[i] == vec2[i] {
            vec3.push(vec1[i]);
        } else {
            vec3.push(0);
        }
        i = i + 1;
    }
    assert(vec3@ =~= bundle_pair_spec(vec1@, vec2@));
    Ok(vec3)
}

/// The sequence of row views of a matrix held as a vector of vectors.
pub open spec fn matrix_view(m: Seq<Vec<i32>>) -> Seq<Seq<i32>> {
    Seq::new(m.len(), |i: int| m[i]@)
}

/// True when every row of the matrix has the same length as the first row.
pub open spec fn uniform_len(m: Seq<Seq<i32>>) -> bool {
    forall|i: int| 0 <= i < m.len() ==> (#[trigger] m[i]).len() == m[0].len()
}

/// True when the first `n` rows of the matrix all agree with the first row
/// at position `j`.
pub open spec fn agree_upto(m: Seq<Seq<i32>>, n: int, j: int) -> bool {
    forall|i: int| 0 <= i < n ==> #[trigger] m[i][j] == m[0][j]
}

/// The left-to-right consensus fold of a non-empty matrix: a position keeps
/// the first row's value while every row agrees with it there, and collapses
/// to 0 at the first disagreement, permanently (0 only ever agrees with 0).
/// For the chained fold this is exactly: position `j` holds the first row's
/// value if all rows agree with it at `j`, and 0 otherwise.
pub open spec fn bundle_all_spec(m: Seq<Seq<i32>>) -> Seq<i32>
    recommends
        m.len() > 0,
{
    Seq::new(m[0].len(), |j: int| if agree_upto(m, m.len() as int, j) { m[0][j] } else { 0i32 })
}

/// The consensus fold of the first `n` rows of the matrix.
pub open spec fn bundle_all_spec_upto(m: Seq<Seq<i32>>, n: int) -> Seq<i32>
    recommends
        0 < n <= m.len(),
{
    Seq::new(m[0].len(), |j: int| if agree_upto(m, n, j) { m[0][j] } else { 0i32 })
}

/// Extending the fold by one row keeps a position's value exactly when the
/// running value agrees with the new row's value there.
proof fn lemma_agree_upto_step(m: Seq<Seq<i32>>, n: int, j: int)
    requires
        1 <= n < m.len(),
    ensures
        agree_upto(m, n + 1, j) <==> (agree_upto(m, n, j) && m[n][j] == m[0][j]),
{
}

/// Bundle a whole matrix into one consensus vector by folding pairwise from
/// the first row: positions where every row agrees keep the common value,
/// all others become 0. Fails when the matrix is empty or when its rows do
/// not all have the same length.
pub fn bundle_matrix(matrix: Vec<Vec<i32>>) -> (r: Result<Vec<i32>, HdvError>)
    ensures
        match r {
            Ok(v) => matrix@.len() > 0 && uniform_len(matrix_view(matrix@)) && v@
                == bundle_all_spec(matrix_view(matrix@)),
            Err(e) => (matrix@.len() == 0 || !uniform_len(matrix_view(matrix@))) && e
                == HdvError::InvalidArgument,
        },
{
    let ghost mv = matrix_view(matrix@);
    if matrix.len() == 0 {
        return Err(HdvError::InvalidArgument);
    }
    let width = matrix[0].len();
    let mut i: usize = 1;
    while i < matrix.len()
        invariant
            mv == matrix_view(matrix@),
            matrix@.len() > 0,
            width == mv[0].len(),
            1 <= i <= matrix@.len(),
            forall|t: int| 0 <= t < i as int ==> (#[trigger] mv[t]).len() == mv[0].len(),
        decreases matrix@.len() - i,
    {
        if matrix[i].len() != width {
            proof {
                assert(mv[i as int].len() != mv[0].len());
                assert(!uniform_len(mv));
            }
            return Err(HdvError::InvalidArgument);
        }
        i = i + 1;
    }
    assert(uniform_len(mv));
    let mut acc: Vec<i32> = matrix[0].clone();
    assert(acc@ =~= bundle_all_spec_upto(mv, 1));
    let mut n: usize = 1;
    while n < matrix.len()
        invariant
            mv == matrix_view(matrix@),
            matrix@.len() > 0,
            uniform_len(mv),
            1 <= n <= matrix@.len(),
            acc@ == bundle_all_spec_upto(mv, n as int),
        decreases matrix@.len() - n,
    {
        let mut j: usize = 0;
        while j < acc.len()
            invariant
                mv == matrix_view(matrix@),
                matrix@.len() > 0,
                uniform_len(mv),
                1 <= n < matrix@.len(),
                acc@.len() == mv[0].len(),
                j <= acc@.len(),
                forall|t: int| 0 <= t < j as int ==> acc@[t] == bundle_all_spec_upto(mv, n + 1)[t],
                forall|t: int| j as int <= t < acc@.len() ==> acc@[t] == bundle_all_spec_upto(
                    mv,
                    n as int,
                )[t],
            decreases acc@.len() - j,
        {
            proof {
                assert(mv[n as int] == matrix@[n as int]@);
                assert(mv[n as int].len() == mv[0].len());
            }
            if acc[j] != matrix[n][j] {
                acc[j] = 0;
            }
            proof {
                lemma_agree_upto_step(mv, n as int, j as int);
            }
            j = j + 1;
        }
        n = n + 1;
    }
    assert(acc@ =~= bundle_all_spec(mv));
    Ok(acc)
}

/// Bundling a vector with itself reproduces the vector exactly: every
/// position agrees with itself, so every value is kept.
pub proof fn lemma_bundle_pair_self(v: Seq<i32>)
    ensures
        bundle_pair_spec(v, v) == v,
{
    assert(bundle_pair_spec(v, v) =~= v);
}

/// A bundled position is 0 exactly where the two vectors disagree, and
/// carries the common value where they agree.
pub proof fn lemma_bundle_pair_pointwise(a: Seq<i32>, b: Seq<i32>, i: int)
    requires
        a.len() == b.len(),
        0 <= i < a.len(),
    ensures
        a[i] != b[i] ==> bundle_pair_spec(a, b)[i] == 0,
        a[i] == b[i] ==> bundle_pair_spec(a, b)[i] == a[i],
{
}

/// Bundling a one-row matrix reproduces its only row.
pub proof fn lemma_bundle_all_single(v: Seq<i32>)
    ensures
        bundle_all_spec(seq![v]) == v,
{
    assert(bundle_all_spec(seq![v]) =~= v);
}

} // verus!
