//! Counting and ranking of the canonical index pairs and triples.
//!
//! The canonical enumeration runs `i` from `0..n`, `j` from `0..i`, `k` from
//! `0..j`, so a pair is `(j, i)` with `j < i` and a triple is `(k, j, i)`
//! with `k < j < i`. Each pair and triple has a rank: its position in that
//! enumeration order.

use vstd::prelude::*;

verus! {

/// The number of index pairs `(j, i)` with `j < i < n`: the binomial
/// coefficient `C(n, 2)`.
pub open spec fn pair_count_spec(n: int) -> int
    decreases n,
{
    if n < 2 {
        0
    } else {
        pair_count_spec(n - 1) + (n - 1)
    }
}

/// The number of index triples `(k, j, i)` with `k < j < i < n`: the
/// binomial coefficient `C(n, 3)`, also the `(n-2)`-th trigonal-pyramidal
/// number.
pub open spec fn triple_count_spec(n: int) -> int
    decreases n,
{
    if n < 3 {
        0
    } else {
        triple_count_spec(n - 1) + pair_count_spec(n - 1)
    }
}

/// The position of the pair `(j, i)`, `j < i`, in the canonical enumeration.
pub open spec fn pair_rank(j: int, i: int) -> int {
    pair_count_spec(i) + j
}

/// The position of the triple `(k, j, i)`, `k < j < i`, in the canonical
/// enumeration.
pub open spec fn triple_rank(k: int, j: int, i: int) -> int {
    triple_count_spec(i) + pair_count_spec(j) + k
}

pub proof fn lemma_pair_count_nonneg(n: int)
    ensures
        pair_count_spec(n) >= 0,
    decreases n,
{
    if n >= 2 {
        lemma_pair_count_nonneg(n - 1);
    }
}

pub proof fn lemma_triple_count_nonneg(n: int)
    ensures
        triple_count_spec(n) >= 0,
    decreases n,
{
    if n >= 3 {
        lemma_triple_count_nonneg(n - 1);
        lemma_pair_count_nonneg(n - 1);
    }
}

pub proof fn lemma_pair_count_mono(a: int, b: int)
    requires
        a <= b,
    ensures
        pair_count_spec(a) <= pair_count_spec(b),
    decreases b - a,
{
    if a < b {
        lemma_pair_count_mono(a, b - 1);
    }
}

pub proof fn lemma_triple_count_mono(a: int, b: int)
    requires
        a <= b,
    ensures
        triple_count_spec(a) <= triple_count_spec(b),
    decreases b - a,
{
    if a < b {
        lemma_triple_count_mono(a, b - 1);
        lemma_pair_count_nonneg(b - 1);
    }
}

/// `C(n, 2)` in closed form: `2 * C(n, 2) == n * (n - 1)`.
pub proof fn lemma_pair_count_closed(n: int)
    requires
        n >= 0,
    ensures
        2 * pair_count_spec(n) == n * (n - 1),
    decreases n,
{
    if n >= 2 {
        lemma_pair_count_closed(n - 1);
        assert(2 * pair_count_spec(n) == n * (n - 1)) by (nonlinear_arith)
            requires
                2 * pair_count_spec(n - 1) == (n - 1) * (n - 2),
                pair_count_spec(n) == pair_count_spec(n - 1) + (n - 1),
        {
        }
    } else {
        assert(n * (n - 1) == 0) by (nonlinear_arith)
            requires
                0 <= n < 2,
        {
        }
    }
}

/// The bond-angle list length in closed form: `6 * C(n, 3) == n * (n - 1) * (n - 2)`.
/// With `m = n - 2` the right-hand side is `m^3 + 3*m^2 + 2*m`, the cubic
/// used as a capacity hint for the record list.
pub proof fn lemma_triple_count_closed(n: int)
    requires
        n >= 0,
    ensures
        6 * triple_count_spec(n) == n * (n - 1) * (n - 2),
    decreases n,
{
    if n >= 3 {
        lemma_triple_count_closed(n - 1);
        lemma_pair_count_closed(n - 1);
        assert(6 * triple_count_spec(n) == n * (n - 1) * (n - 2)) by (nonlinear_arith)
            requires
                6 * triple_count_spec(n - 1) == (n - 1) * (n - 2) * (n - 3),
                2 * pair_count_spec(n - 1) == (n - 1) * (n - 2),
                triple_count_spec(n) == triple_count_spec(n - 1) + pair_count_spec(n - 1),
        {
        }
    } else {
        assert(n * (n - 1) * (n - 2) == 0) by (nonlinear_arith)
            requires
                0 <= n < 3,
        {
        }
    }
}

/// A canonical pair's rank lies below the pair count of the list.
pub proof fn lemma_pair_rank_bound(j: int, i: int, n: int)
    requires
        0 <= j < i < n,
    ensures
        0 <= pair_rank(j, i) < pair_count_spec(n),
{
    lemma_pair_count_nonneg(i);
    assert(pair_count_spec(i + 1) == pair_count_spec(i) + i);
    lemma_pair_count_mono(i + 1, n);
}

/// A canonical triple's rank lies below the triple count of the list.
pub proof fn lemma_triple_rank_bound(k: int, j: int, i: int, n: int)
    requires
        0 <= k < j < i < n,
    ensures
        0 <= triple_rank(k, j, i) < triple_count_spec(n),
{
    lemma_triple_count_nonneg(i);
    lemma_pair_count_nonneg(j);
    assert(pair_count_spec(j + 1) == pair_count_spec(j) + j);
    lemma_pair_count_mono(j + 1, i);
    assert(triple_count_spec(i + 1) == triple_count_spec(i) + pair_count_spec(i));
    lemma_triple_count_mono(i + 1, n);
}

/// Two canonical pairs with the same rank are the same pair.
pub proof fn lemma_pair_rank_injective(j1: int, i1: int, j2: int, i2: int)
    requires
        0 <= j1 < i1,
        0 <= j2 < i2,
        pair_rank(j1, i1) == pair_rank(j2, i2),
    ensures
        j1 == j2,
        i1 == i2,
{
    if i1 < i2 {
        lemma_pair_rank_bound(j1, i1, i2);
        lemma_pair_count_nonneg(i2);
    }
    if i2 < i1 {
        lemma_pair_rank_bound(j2, i2, i1);
        lemma_pair_count_nonneg(i1);
    }
}

/// Two canonical triples with the same rank are the same triple.
pub proof fn lemma_triple_rank_injective(
    k1: int,
    j1: int,
    i1: int,
    k2: int,
    j2: int,
    i2: int,
)
    requires
        0 <= k1 < j1 < i1,
        0 <= k2 < j2 < i2,
        triple_rank(k1, j1, i1) == triple_rank(k2, j2, i2),
    ensures
        k1 == k2,
        j1 == j2,
        i1 == i2,
{
    if i1 < i2 {
        lemma_triple_rank_bound(k1, j1, i1, i2);
        lemma_triple_count_nonneg(i2);
        lemma_pair_count_nonneg(j2);
    }
    if i2 < i1 {
        lemma_triple_rank_bound(k2, j2, i2, i1);
        lemma_triple_count_nonneg(i1);
        lemma_pair_count_nonneg(j1);
    }
    lemma_pair_rank_injective(k1, j1, k2, j2);
}

/// The number of entries in the strict lower triangle of an `n`-by-`n`
/// matrix, `C(n, 2)`, or `None` where that count does not fit in `usize`.
pub fn pair_count(n: usize) -> (r: Option<usize>)
    ensures
        r is Some <==> pair_count_spec(n as int) <= usize::MAX,
        r matches Some(c) ==> c == pair_count_spec(n as int),
{
    let mut acc: usize = 0;
    for t in 0..n
        invariant
            acc == pair_count_spec(t as int),
    {
        if acc > usize::MAX - t {
            proof {
                assert(pair_count_spec(t as int + 1) == pair_count_spec(t as int) + t);
                lemma_pair_count_mono(t as int + 1, n as int);
            }
            return None;
        }
        acc = acc + t;
    }
    Some(acc)
}

/// The number of bond-angle records for `n` atoms, `C(n, 3)`, or `None`
/// where that count does not fit in `usize`.
pub fn triple_count(n: usize) -> (r: Option<usize>)
    ensures
        r is Some <==> triple_count_spec(n as int) <= usize::MAX,
        r matches Some(c) ==> c == triple_count_spec(n as int),
{
    let mut acc3: usize = 0;
    let mut acc2: usize = 0;
    for t in 0..n
        invariant
            acc3 == triple_count_spec(t as int),
            t < n ==> acc2 == pair_count_spec(t as int),
    {
        if acc3 > usize::MAX - acc2 {
            proof {
                assert(triple_count_spec(t as int + 1)
                    == triple_count_spec(t as int) + pair_count_spec(t as int));
                lemma_triple_count_mono(t as int + 1, n as int);
            }
            return None;
        }
        acc3 = acc3 + acc2;
        if t + 1 < n {
            if acc2 > usize::MAX - t {
                proof {
                    assert(pair_count_spec(t as int + 1)
                        == pair_count_spec(t as int) + t);
                    assert(triple_count_spec(t as int + 2)
                        == triple_count_spec(t as int + 1) + pair_count_spec(t as int + 1));
                    lemma_triple_count_nonneg(t as int + 1);
                    lemma_triple_count_mono(t as int + 2, n as int);
                }
                return None;
            }
            acc2 = acc2 + t;
        }
    }
    Some(acc3)
}

} // verus!
