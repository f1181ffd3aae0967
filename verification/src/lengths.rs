//! The pairwise bond-length matrix.
//!
//! The caller supplies the strict lower triangle of distance values in
//! canonical pair order — one `u64` (an IEEE-754 double bit pattern) for
//! each pair `(j, i)` with `j < i`, at position `pair_rank(j, i)`. The
//! builder mirrors the triangle into a full symmetric `n`-by-`n` matrix
//! whose diagonal holds the pattern of `0.0`, which is `0u64`.

use vstd::prelude::*;

use crate::counts::lemma_pair_count_mono;
use crate::counts::lemma_pair_count_nonneg;
use crate::counts::lemma_pair_rank_bound;
use crate::counts::pair_count_spec;
use crate::counts::pair_rank;
use crate::error::GeomError;

verus! {

/// What entry `(i, j)` of the bond-length matrix holds, given the lower
/// triangle `tri` in canonical pair order: `0` on the diagonal, and the
/// value of the unordered pair `{i, j}` off it.
pub open spec fn length_entry(tri: Seq<u64>, i: int, j: int) -> u64 {
    if i == j {
        0u64
    } else if j < i {
        tri[pair_rank(j, i)]
    } else {
        tri[pair_rank(i, j)]
    }
}

/// The matrix `m` is the bond-length matrix of an `n`-atom list whose lower
/// triangle of distances is `tri`: it is `n`-by-`n` and each entry is
/// `length_entry`.
pub open spec fn lengths_matrix_spec(n: int, tri: Seq<u64>, m: Seq<Seq<u64>>) -> bool {
    &&& m.len() == n
    &&& forall|i: int| 0 <= i < n ==> (#[trigger] m[i]).len() == n
    &&& forall|i: int, j: int|
        0 <= i < n && 0 <= j < n ==> #[trigger] m[i][j] == length_entry(tri, i, j)
}

/// The rows of an executable matrix, as a sequence of sequences.
pub open spec fn matrix_view(m: Seq<Vec<u64>>) -> Seq<Seq<u64>> {
    m.map_values(|row: Vec<u64>| row@)
}

/// The bond-length matrix is a function of the atom count and the supplied
/// distance triangle alone: any two matrices meeting its description are
/// equal, so recomputing it from the same atom list yields an identical
/// result.
pub proof fn lemma_bond_lengths_deterministic(
    n: int,
    tri: Seq<u64>,
    m1: Seq<Seq<u64>>,
    m2: Seq<Seq<u64>>,
)
    requires
        lengths_matrix_spec(n, tri, m1),
        lengths_matrix_spec(n, tri, m2),
    ensures
        m1 == m2,
{
    assert forall|i: int| 0 <= i < n implies #[trigger] m1[i] =~= m2[i] by {
        assert(forall|j: int| 0 <= j < n ==> #[trigger] m1[i][j] == m2[i][j]);
    }
    assert(m1 =~~= m2);
}

/// The position of pair `(j, i)` in the canonical pair enumeration,
/// computed by summing the rows that precede `i`.
fn pair_rank_exec(j: usize, i: usize) -> (r: usize)
    requires
        j < i,
        pair_count_spec(i as int + 1) <= usize::MAX,
    ensures
        r == pair_rank(j as int, i as int),
{
    let mut acc: usize = 0;
    for t in 0..i
        invariant
            acc == pair_count_spec(t as int),
            t <= i,
            pair_count_spec(i as int + 1) <= usize::MAX,
    {
        proof {
            assert(pair_count_spec(t as int + 1) == pair_count_spec(t as int) + t);
            lemma_pair_count_mono(t as int + 1, i as int + 1);
        }
        acc = acc + t;
    }
    proof {
        assert(pair_count_spec(i as int + 1) == pair_count_spec(i as int) + i);
    }
    acc + j
}

/// Builds the symmetric bond-length matrix for `n` atoms from the strict
/// lower triangle `tri` of pairwise distance values in canonical pair
/// order. Fails with `InsufficientAtoms` when `n <= 1`: no bonds exist in
/// an empty or single-atom system. On success the matrix is `n`-by-`n`,
/// symmetric, zero on the diagonal, and carries each supplied pair value at
/// both of its mirrored positions.
pub fn all_bond_lengths(n: usize, tri: &Vec<u64>) -> (r: Result<Vec<Vec<u64>>, GeomError>)
    requires
        tri@.len() == pair_count_spec(n as int),
    ensures
        r is Ok <==> n >= 2,
        r is Err ==> r == Err::<Vec<Vec<u64>>, GeomError>(GeomError::InsufficientAtoms),
        r matches Ok(m) ==> lengths_matrix_spec(n as int, tri@, matrix_view(m@)),
        r matches Ok(m) ==> forall|i: int| 0 <= i < n ==> (#[trigger] m@[i])@.len() == n,
        r matches Ok(m) ==> forall|i: int| 0 <= i < n ==> #[trigger] m@[i]@[i] == 0u64,
        r matches Ok(m) ==> forall|i: int, j: int|
            0 <= i < n && 0 <= j < n ==> #[trigger] m@[i]@[j] == m@[j]@[i],
        r matches Ok(m) ==> forall|i: int, j: int|
            0 <= j < i < n ==> #[trigger] m@[i]@[j] == tri@[pair_rank(j, i)],
{
    if n <= 1 {
        return Err(GeomError::InsufficientAtoms);
    }
    let tri_len = tri.len();
    let mut rows: Vec<Vec<u64>> = Vec::new();
    for i in 0..n
        invariant
            tri@.len() == pair_count_spec(n as int),
            pair_count_spec(n as int) <= usize::MAX,
            rows@.len() == i,
            forall|a: int| 0 <= a < i ==> (#[trigger] rows@[a])@.len() == n,
            forall|a: int, b: int|
                0 <= a < i && 0 <= b < n ==> #[trigger] rows@[a]@[b] == length_entry(
                    tri@,
                    a,
                    b,
                ),
    {
        let mut row: Vec<u64> = Vec::new();
        for j in 0..n
            invariant
                tri@.len() == pair_count_spec(n as int),
                pair_count_spec(n as int) <= usize::MAX,
                i < n,
                row@.len() == j,
                forall|b: int|
                    0 <= b < j ==> #[trigger] row@[b] == length_entry(tri@, i as int, b),
        {
            if j < i {
                proof {
                    lemma_pair_count_mono(i as int + 1, n as int);
                    lemma_pair_rank_bound(j as int, i as int, n as int);
                }
                let idx = pair_rank_exec(j, i);
                row.push(tri[idx]);
            } else if j == i {
                row.push(0u64);
            } else {
                proof {
                    lemma_pair_count_mono(j as int + 1, n as int);
                    lemma_pair_rank_bound(i as int, j as int, n as int);
                }
                let idx = pair_rank_exec(i, j);
                row.push(tri[idx]);
            }
        }
        rows.push(row);
    }
    proof {
        assert forall|i: int, j: int| 0 <= i < n && 0 <= j < n implies #[trigger] matrix_view(
            rows@,
        )[i][j] == length_entry(tri@, i, j) by {
            assert(matrix_view(rows@)[i] == rows@[i]@);
        }
        assert(lengths_matrix_spec(n as int, tri@, matrix_view(rows@)));
        assert forall|i: int, j: int| 0 <= i < n && 0 <= j < n implies #[trigger] rows@[i]@[j]
            == rows@[j]@[i] by {
            assert(rows@[i]@[j] == length_entry(tri@, i, j));
            assert(rows@[j]@[i] == length_entry(tri@, j, i));
        }
    }
    Ok(rows)
}

} // verus!
