use vstd::prelude::*;

verus! {

/// `t` is `m` with rows and columns swapped.
pub open spec fn is_transpose<T>(t: [[T; 4]; 4], m: [[T; 4]; 4]) -> bool {
    forall|i: int, j: int| 0 <= i < 4 && 0 <= j < 4 ==> #[trigger] t[i][j] == m[j][i]
}

/// Swaps the rows and columns of a 4x4 matrix stored row by row: entry `(i, j)` of the
/// result is entry `(j, i)` of `m`.
pub fn transpose<T: Copy>(m: &[[T; 4]; 4]) -> (r: [[T; 4]; 4])
    ensures
        is_transpose(r, *m),
{
    let r = [
        [m[0][0], m[1][0], m[2][0], m[3][0]],
        [m[0][1], m[1][1], m[2][1], m[3][1]],
        [m[0][2], m[1][2], m[2][2], m[3][2]],
        [m[0][3], m[1][3], m[2][3], m[3][3]],
    ];
    r
}

/// Transposing twice gives back the matrix.
pub proof fn lemma_transpose_twice<T>(m: [[T; 4]; 4])
    ensures
        forall|t: [[T; 4]; 4], u: [[T; 4]; 4]|
            is_transpose(t, m) && #[trigger] is_transpose(u, t) ==> u == m,
{
    assert forall|t: [[T; 4]; 4], u: [[T; 4]; 4]|
        is_transpose(t, m) && #[trigger] is_transpose(u, t) implies u == m by {
        assert forall|i: int| 0 <= i < 4 implies #[trigger] u[i] == m[i] by {
            assert forall|j: int| 0 <= j < 4 implies u[i][j] == m[i][j] by {
                assert(u[i][j] == t[j][i]);
            }
            assert(u[i] =~= m[i]);
        }
        assert(u =~= m);
    }
}

} // verus!
