//! Combinatorial structure of polygon captures: ring counts and sizes, and
//! which edges of a ring must be tested against each other for crossings.
//! Coordinates, areas and intersection tests are the host's arithmetic.
use vstd::prelude::*;

verus! {

/// Fewest vertices of a capture ring.
pub const MIN_RING: usize = 3;

/// Most vertices of a capture ring.
pub const MAX_RING: usize = 48;

/// Why the shape of a polygon capture was refused.
#[derive(Debug, Clone, Copy, PartialEq, Eq, Structural)]
pub enum ShapeError {
    /// A capture needs one outer ring and at most one hole.
    RingCount,
    /// A ring needs 3..=48 vertices.
    RingSize,
}

/// The first structural fault of a capture whose rings have `sizes` vertices.
pub open spec fn ring_error(sizes: Seq<usize>) -> Option<ShapeError> {
    if sizes.len() == 0 || sizes.len() > 2 {
        Some(ShapeError::RingCount)
    } else if exists|k: int| 0 <= k < sizes.len() && !(MIN_RING <= #[trigger] sizes[k] <= MAX_RING) {
        Some(ShapeError::RingSize)
    } else {
        None
    }
}

/// Check that a polygon capture has one outer ring, at most one hole, and
/// 3..=48 vertices in each ring.
pub fn check_rings(sizes: &Vec<usize>) -> (r: Result<(), ShapeError>)
    ensures
        r == (match ring_error(sizes@) {
            None => Ok(()),
            Some(e) => Err(e),
        }),
{
    if sizes.len() == 0 || sizes.len() > 2 {
        return Err(ShapeError::RingCount);
    }
    let mut k: usize = 0;
    while k < sizes.len()
        invariant
            k <= sizes.len(),
            1 <= sizes.len() <= 2,
            forall|m: int| 0 <= m < k ==> MIN_RING <= #[trigger] sizes@[m] <= MAX_RING,
        decreases sizes.len() - k,
    {
        if sizes[k] < MIN_RING || sizes[k] > MAX_RING {
            assert(!(MIN_RING <= sizes@[k as int] <= MAX_RING));
            return Err(ShapeError::RingSize);
        }
        k = k + 1;
    }
    Ok(())
}

/// Edges `i` (from vertex `i` to the next) and `j` of an `n`-vertex ring are
/// distinct and share no vertex, so a valid ring keeps them apart.
pub open spec fn crossing_candidate(n: int, i: int, j: int) -> bool {
    0 <= i < j < n && j != i + 1 && !(i == 0 && j == n - 1)
}

/// Lexicographic order of index pairs.
pub open spec fn pair_before(a: (usize, usize), b: (usize, usize)) -> bool {
    a.0 < b.0 || (a.0 == b.0 && a.1 < b.1)
}

/// Every pair of non-adjacent edges of an `n`-vertex ring, each once, in
/// lexicographic order: the edge pairs that a simple ring never lets touch.
pub fn edge_pairs(n: usize) -> (out: Vec<(usize, usize)>)
    ensures
        forall|k: int|
            0 <= k < out@.len() ==> crossing_candidate(n as int, out@[k].0 as int, out@[k].1 as int),
        forall|i: int, j: int|
            #![trigger crossing_candidate(n as int, i, j)]
            crossing_candidate(n as int, i, j) ==> out@.contains((i as usize, j as usize)),
        forall|a: int, b: int| 0 <= a < b < out@.len() ==> pair_before(out@[a], out@[b]),
{
    let mut out: Vec<(usize, usize)> = Vec::new();
    let mut i: usize = 0;
    while i < n
        invariant
            i <= n,
            forall|k: int|
                0 <= k < out@.len() ==> crossing_candidate(
                    n as int,
                    out@[k].0 as int,
                    out@[k].1 as int,
                ),
            forall|k: int| 0 <= k < out@.len() ==> out@[k].0 < i,
            forall|a: int, j: int|
                #![trigger crossing_candidate(n as int, a, j)]
                crossing_candidate(n as int, a, j) && a < i ==> out@.contains(
                    (a as usize, j as usize),
                ),
            forall|a: int, b: int| 0 <= a < b < out@.len() ==> pair_before(out@[a], out@[b]),
        decreases n - i,
    {
        let mut j: usize = i + 1;
        while j < n
            invariant
                i < n,
                i + 1 <= j <= n,
                forall|k: int|
                    0 <= k < out@.len() ==> crossing_candidate(
                        n as int,
                        out@[k].0 as int,
                        out@[k].1 as int,
                    ),
                forall|k: int|
                    0 <= k < out@.len() ==> out@[k].0 < i || (out@[k].0 == i && out@[k].1 < j),
                forall|a: int, b: int|
                    #![trigger crossing_candidate(n as int, a, b)]
                    crossing_candidate(n as int, a, b) && (a < i || (a == i && b < j))
                        ==> out@.contains((a as usize, b as usize)),
                forall|a: int, b: int| 0 <= a < b < out@.len() ==> pair_before(out@[a], out@[b]),
            decreases n - j,
        {
            if j != i + 1 && !(i == 0 && j == n - 1) {
                let ghost before = out@;
                out.push((i, j));
                assert forall|a: int, b: int|
                    #![trigger crossing_candidate(n as int, a, b)]
                    crossing_candidate(n as int, a, b) && (a < i || (a == i && b < j + 1))
                        implies out@.contains((a as usize, b as usize)) by {
                    if a == i && b == j {
                        assert(out@[out@.len() - 1] == (a as usize, b as usize));
                    } else {
                        let k = choose|k: int|
                            0 <= k < before.len() && before[k] == (a as usize, b as usize);
                        assert(out@[k] == before[k]);
                    }
                }
            }
            j = j + 1;
        }
        i = i + 1;
    }
    out
}

} // verus!
