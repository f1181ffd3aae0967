//! The bond-angle enumerator.
//!
//! Every distinct unordered triple of atom indices appears exactly once, in
//! the canonical order: `i` runs over `0..n`, `j` over `0..i`, `k` over
//! `0..j`, and the record for `(k, j, i)` stands at position
//! `triple_rank(k, j, i)`. The vertex of each angle is the middle index `j`
//! of the canonical ordering — a fixed convention, not a geometric
//! deduction — and the arms run from `j` to `i` and from `j` to `k`. The
//! caller supplies the angle values themselves (IEEE-754 double bit
//! patterns) in canonical order; the enumerator owns the combinatorics, the
//! ordering, and the degeneracy and error conditions.

use vstd::prelude::*;

use crate::counts::lemma_triple_rank_bound;
use crate::counts::lemma_triple_rank_injective;
use crate::counts::pair_count_spec;
use crate::counts::triple_count_spec;
use crate::counts::triple_rank;
use crate::error::GeomError;
use crate::ion::coincides_spec;
use crate::ion::Ion;

verus! {

/// `(k, j, i)` is a canonical index triple over an `n`-atom list.
pub open spec fn canonical_triple(n: int, k: int, j: int, i: int) -> bool {
    0 <= k < j < i < n
}

/// The angle of the triple `(k, j, i)` is undefined: one of the arms from
/// the vertex `j` — to `i` or to `k` — has zero length because its two
/// atoms sit at the same position.
pub open spec fn arm_degenerate(mol: Seq<Ion>, k: int, j: int, i: int) -> bool {
    coincides_spec(mol[j], mol[i]) || coincides_spec(mol[j], mol[k])
}

/// Some canonical triple of the list has a zero-length arm.
pub open spec fn has_degenerate(mol: Seq<Ion>) -> bool {
    exists|k: int, j: int, i: int|
        canonical_triple(mol.len() as int, k, j, i) && #[trigger] arm_degenerate(mol, k, j, i)
}

/// Record `rec` is what position `m` of the bond-angle list holds: a
/// canonical triple whose rank is `m`, and the `m`-th supplied angle value.
pub open spec fn angle_record_ok(n: int, arc: Seq<u64>, m: int, rec: (usize, usize, usize, u64)) -> bool {
    &&& canonical_triple(n, rec.0 as int, rec.1 as int, rec.2 as int)
    &&& triple_rank(rec.0 as int, rec.1 as int, rec.2 as int) == m
    &&& rec.3 == arc[m]
}

/// The sequence `s` is the bond-angle record list of an `n`-atom list with
/// supplied angle values `arc`: one record per canonical triple, in rank
/// order.
pub open spec fn angles_list_spec(n: int, arc: Seq<u64>, s: Seq<(usize, usize, usize, u64)>) -> bool {
    &&& s.len() == triple_count_spec(n)
    &&& forall|m: int| 0 <= m < s.len() ==> angle_record_ok(n, arc, m, #[trigger] s[m])
}

/// The bond-angle list is a function of the atom count and the supplied
/// angle values alone: any two lists meeting its description are equal, so
/// recomputing it from the same atom list yields an identical result.
pub proof fn lemma_bond_angles_deterministic(
    n: int,
    arc: Seq<u64>,
    s1: Seq<(usize, usize, usize, u64)>,
    s2: Seq<(usize, usize, usize, u64)>,
)
    requires
        angles_list_spec(n, arc, s1),
        angles_list_spec(n, arc, s2),
    ensures
        s1 == s2,
{
    assert forall|m: int| 0 <= m < s1.len() implies #[trigger] s1[m] == s2[m] by {
        lemma_triple_rank_injective(
            s1[m].0 as int,
            s1[m].1 as int,
            s1[m].2 as int,
            s2[m].0 as int,
            s2[m].1 as int,
            s2[m].2 as int,
        );
    }
    assert(s1 =~= s2);
}

/// Every distinct unordered triple of `n` atom indices, exactly once, in
/// canonical order: position `m` holds the triple of rank `m`, so the list
/// has `C(n, 3)` entries and no triple repeats. An `n` below 3 yields the
/// empty list.
pub fn angle_triples(n: usize) -> (r: Vec<(usize, usize, usize)>)
    ensures
        r@.len() == triple_count_spec(n as int),
        forall|m: int|
            0 <= m < r@.len() ==> canonical_triple(
                n as int,
                (#[trigger] r@[m]).0 as int,
                r@[m].1 as int,
                r@[m].2 as int,
            ),
        forall|m: int|
            0 <= m < r@.len() ==> triple_rank(
                (#[trigger] r@[m]).0 as int,
                r@[m].1 as int,
                r@[m].2 as int,
            ) == m,
        forall|m1: int, m2: int| 0 <= m1 < m2 < r@.len() ==> r@[m1] != r@[m2],
        forall|k: int, j: int, i: int|
            canonical_triple(n as int, k, j, i) ==> {
                let m = #[trigger] triple_rank(k, j, i);
                &&& 0 <= m < r@.len()
                &&& r@[m].0 == k
                &&& r@[m].1 == j
                &&& r@[m].2 == i
            },
{
    let mut out: Vec<(usize, usize, usize)> = Vec::new();
    for i in 0..n
        invariant
            out@.len() == triple_count_spec(i as int),
            forall|m: int|
                0 <= m < out@.len() ==> canonical_triple(
                    n as int,
                    (#[trigger] out@[m]).0 as int,
                    out@[m].1 as int,
                    out@[m].2 as int,
                ),
            forall|m: int|
                0 <= m < out@.len() ==> triple_rank(
                    (#[trigger] out@[m]).0 as int,
                    out@[m].1 as int,
                    out@[m].2 as int,
                ) == m,
    {
        for j in 0..i
            invariant
                i < n,
                out@.len() == triple_count_spec(i as int) + pair_count_spec(j as int),
                forall|m: int|
                    0 <= m < out@.len() ==> canonical_triple(
                        n as int,
                        (#[trigger] out@[m]).0 as int,
                        out@[m].1 as int,
                        out@[m].2 as int,
                    ),
                forall|m: int|
                    0 <= m < out@.len() ==> triple_rank(
                        (#[trigger] out@[m]).0 as int,
                        out@[m].1 as int,
                        out@[m].2 as int,
                    ) == m,
        {
            for k in 0..j
                invariant
                    k <= j < i < n,
                    out@.len() == triple_count_spec(i as int) + pair_count_spec(j as int)
                        + k,
                    forall|m: int|
                        0 <= m < out@.len() ==> canonical_triple(
                            n as int,
                            (#[trigger] out@[m]).0 as int,
                            out@[m].1 as int,
                            out@[m].2 as int,
                        ),
                    forall|m: int|
                        0 <= m < out@.len() ==> triple_rank(
                            (#[trigger] out@[m]).0 as int,
                            out@[m].1 as int,
                            out@[m].2 as int,
                        ) == m,
            {
                out.push((k, j, i));
            }
            proof {
                assert(pair_count_spec(j as int + 1) == pair_count_spec(j as int) + j);
            }
        }
        proof {
            assert(triple_count_spec(i as int + 1) == triple_count_spec(i as int)
                + pair_count_spec(i as int));
        }
    }
    proof {
        assert forall|m1: int, m2: int| 0 <= m1 < m2 < out@.len() implies out@[m1]
            != out@[m2] by {
            assert(triple_rank(out@[m1].0 as int, out@[m1].1 as int, out@[m1].2 as int) == m1);
            assert(triple_rank(out@[m2].0 as int, out@[m2].1 as int, out@[m2].2 as int) == m2);
        }
        assert forall|k: int, j: int, i: int|
            canonical_triple(n as int, k, j, i) implies {
            let m = #[trigger] triple_rank(k, j, i);
            &&& 0 <= m < out@.len()
            &&& out@[m].0 == k
            &&& out@[m].1 == j
            &&& out@[m].2 == i
        } by {
            lemma_triple_rank_bound(k, j, i, n as int);
            let m = triple_rank(k, j, i);
            lemma_triple_rank_injective(
                out@[m].0 as int,
                out@[m].1 as int,
                out@[m].2 as int,
                k,
                j,
                i,
            );
        }
    }
    out
}

/// Whether some canonical triple of the list has a zero-length arm.
fn find_degenerate(mol: &Vec<Ion>) -> (r: bool)
    ensures
        r == has_degenerate(mol@),
{
    let n = mol.len();
    for i in 0..n
        invariant
            n == mol@.len(),
            forall|k: int, j: int, a: int|
                canonical_triple(n as int, k, j, a) && a < i ==> !#[trigger] arm_degenerate(
                    mol@,
                    k,
                    j,
                    a,
                ),
    {
        for j in 0..i
            invariant
                n == mol@.len(),
                i < n,
                forall|k: int, jj: int, a: int|
                    canonical_triple(n as int, k, jj, a) && a < i ==> !#[trigger] arm_degenerate(
                        mol@,
                        k,
                        jj,
                        a,
                    ),
                forall|k: int, jj: int|
                    0 <= k < jj < j ==> !#[trigger] arm_degenerate(mol@, k, jj, i as int),
        {
            for k in 0..j
                invariant
                    n == mol@.len(),
                    k <= j < i < n,
                    forall|kk: int, jj: int, a: int|
                        canonical_triple(n as int, kk, jj, a) && a < i
                            ==> !#[trigger] arm_degenerate(mol@, kk, jj, a),
                    forall|kk: int, jj: int|
                        0 <= kk < jj < j ==> !#[trigger] arm_degenerate(mol@, kk, jj, i as int),
                    forall|kk: int|
                        0 <= kk < k ==> !#[trigger] arm_degenerate(mol@, kk, j as int, i as int),
            {
                if mol[j].coincides(&mol[i]) || mol[j].coincides(&mol[k]) {
                    proof {
                        assert(canonical_triple(n as int, k as int, j as int, i as int)
                            && arm_degenerate(mol@, k as int, j as int, i as int));
                    }
                    return true;
                }
            }
        }
    }
    false
}

/// The full bond-angle list for the atom list `mol`, with the angle values
/// `arc` supplied by the caller in canonical triple order. Fails with
/// `InsufficientAtoms` when fewer than 3 atoms are given — too few for any
/// angle — and with `DegenerateGeometry` exactly when some canonical triple
/// has a zero-length arm, rather than letting an undefined angle pass
/// silently. On success, record `m` is `(k, j, i, arc[m])` for the triple
/// of rank `m`, so the list holds each of the `C(n, 3)` triples exactly
/// once, in canonical order.
pub fn bond_angles(mol: &Vec<Ion>, arc: &Vec<u64>) -> (r: Result<
    Vec<(usize, usize, usize, u64)>,
    GeomError,
>)
    requires
        arc@.len() == triple_count_spec(mol@.len() as int),
    ensures
        r is Ok <==> mol@.len() > 2 && !has_degenerate(mol@),
        mol@.len() <= 2 ==> r == Err::<Vec<(usize, usize, usize, u64)>, GeomError>(
            GeomError::InsufficientAtoms,
        ),
        mol@.len() > 2 && has_degenerate(mol@) ==> r == Err::<
            Vec<(usize, usize, usize, u64)>,
            GeomError,
        >(GeomError::DegenerateGeometry),
        r matches Ok(v) ==> angles_list_spec(mol@.len() as int, arc@, v@),
        r matches Ok(v) ==> forall|m1: int, m2: int|
            0 <= m1 < m2 < v@.len() ==> (#[trigger] v@[m1]).0 != (#[trigger] v@[m2]).0
                || v@[m1].1 != v@[m2].1 || v@[m1].2 != v@[m2].2,
        r matches Ok(v) ==> forall|k: int, j: int, i: int|
            canonical_triple(mol@.len() as int, k, j, i) ==> {
                let m = #[trigger] triple_rank(k, j, i);
                &&& 0 <= m < v@.len()
                &&& v@[m].0 == k
                &&& v@[m].1 == j
                &&& v@[m].2 == i
                &&& v@[m].3 == arc@[m]
            },
{
    let n = mol.len();
    if n <= 2 {
        return Err(GeomError::InsufficientAtoms);
    }
    if find_degenerate(mol) {
        return Err(GeomError::DegenerateGeometry);
    }
    let mut out: Vec<(usize, usize, usize, u64)> = Vec::new();
    for i in 0..n
        invariant
            n == mol@.len(),
            arc@.len() == triple_count_spec(n as int),
            out@.len() == triple_count_spec(i as int),
            forall|m: int|
                0 <= m < out@.len() ==> angle_record_ok(n as int, arc@, m, #[trigger] out@[m]),
    {
        for j in 0..i
            invariant
                n == mol@.len(),
                i < n,
                arc@.len() == triple_count_spec(n as int),
                out@.len() == triple_count_spec(i as int) + pair_count_spec(j as int),
                forall|m: int|
                    0 <= m < out@.len() ==> angle_record_ok(n as int, arc@, m, #[trigger] out@[m]),
        {
            for k in 0..j
                invariant
                    n == mol@.len(),
                    k <= j < i < n,
                    arc@.len() == triple_count_spec(n as int),
                    out@.len() == triple_count_spec(i as int) + pair_count_spec(j as int)
                        + k,
                    forall|m: int|
                        0 <= m < out@.len() ==> angle_record_ok(
                            n as int,
                            arc@,
                            m,
                            #[trigger] out@[m],
                        ),
            {
                proof {
                    lemma_triple_rank_bound(k as int, j as int, i as int, n as int);
                }
                let t = out.len();
                out.push((k, j, i, arc[t]));
            }
            proof {
                assert(pair_count_spec(j as int + 1) == pair_count_spec(j as int) + j);
            }
        }
        proof {
            assert(triple_count_spec(i as int + 1) == triple_count_spec(i as int)
                + pair_count_spec(i as int));
        }
    }
    proof {
        assert forall|m1: int, m2: int| 0 <= m1 < m2 < out@.len() implies (#[trigger] out@[m1]).0
            != (#[trigger] out@[m2]).0 || out@[m1].1 != out@[m2].1 || out@[m1].2
            != out@[m2].2 by {
            assert(angle_record_ok(n as int, arc@, m1, out@[m1]));
            assert(angle_record_ok(n as int, arc@, m2, out@[m2]));
        }
        assert forall|k: int, j: int, i: int|
            canonical_triple(n as int, k, j, i) implies {
            let m = #[trigger] triple_rank(k, j, i);
            &&& 0 <= m < out@.len()
            &&& out@[m].0 == k
            &&& out@[m].1 == j
            &&& out@[m].2 == i
            &&& out@[m].3 == arc@[m]
        } by {
            lemma_triple_rank_bound(k, j, i, n as int);
            let m = triple_rank(k, j, i);
            assert(angle_record_ok(n as int, arc@, m, out@[m]));
            lemma_triple_rank_injective(
                out@[m].0 as int,
                out@[m].1 as int,
                out@[m].2 as int,
                k,
                j,
                i,
            );
        }
    }
    Ok(out)
}

} // verus!
