use vstd::prelude::*;

verus! {

/// Two tile coordinates are the same or next to each other.
pub open spec fn coord_near(a: i64, b: i64) -> bool {
    -1 <= a - b <= 1
}

/// Two tiles, given by their coordinates on each axis, are the same tile or
/// neighbours: at Chebyshev distance at most one.
pub open spec fn tiles_adjacent_spec(a: Seq<i64>, b: Seq<i64>) -> bool {
    a.len() == b.len() && forall|k: int| 0 <= k < a.len() ==> coord_near(#[trigger] a[k], b[k])
}

/// Particles `i` and `j` interact in tiled GSA: they are two particles whose
/// tiles are the same or neighbours.
pub open spec fn interacts(tiles: Seq<Vec<i64>>, i: int, j: int) -> bool {
    0 <= i < tiles.len() && 0 <= j < tiles.len() && i != j && tiles_adjacent_spec(tiles[i]@, tiles[j]@)
}

pub open spec fn pair_before(a: (usize, usize), b: (usize, usize)) -> bool {
    a.0 < b.0 || (a.0 == b.0 && a.1 < b.1)
}

pub fn tiles_adjacent(a: &Vec<i64>, b: &Vec<i64>) -> (r: bool)
    ensures
        r == tiles_adjacent_spec(a@, b@),
{
    if a.len() != b.len() {
        return false;
    }
    let mut k: usize = 0;
    while k < a.len()
        invariant
            a@.len() == b@.len(),
            0 <= k <= a@.len(),
            forall|m: int| 0 <= m < k ==> coord_near(#[trigger] a@[m], b@[m]),
        decreases a@.len() - k,
    {
        let x = a[k];
        let y = b[k];
        let near = x == y || (x < y && x == y - 1) || (y < x && y == x - 1);
        if !near {
            return false;
        }
        k += 1;
    }
    true
}

/// The pairs of particles between which tiled GSA computes a force, given the
/// tile of each particle: every ordered pair of distinct particles in the
/// same or neighbouring tiles, each once, by first then second index.
pub fn interaction_pairs(tiles: &Vec<Vec<i64>>) -> (r: Vec<(usize, usize)>)
    ensures
        forall|i: usize, j: usize| interacts(tiles@, i as int, j as int) <==> #[trigger] r@.contains((i, j)),
        forall|m: int| 0 <= m < r@.len() ==> interacts(tiles@, #[trigger] r@[m].0 as int, r@[m].1 as int),
        forall|m: int, n: int| 0 <= m < n < r@.len() ==> pair_before(#[trigger] r@[m], #[trigger] r@[n]),
{
    let n = tiles.len();
    let mut r: Vec<(usize, usize)> = Vec::new();
    let mut i: usize = 0;
    while i < n
        invariant
            n == tiles@.len(),
            0 <= i <= n,
            forall|m: int| 0 <= m < r@.len() ==> interacts(tiles@, #[trigger] r@[m].0 as int, r@[m].1 as int),
            forall|m: int| 0 <= m < r@.len() ==> (#[trigger] r@[m]).0 < i,
            forall|m: int, q: int| 0 <= m < q < r@.len() ==> pair_before(#[trigger] r@[m], #[trigger] r@[q]),
            forall|a: int, b: int| 0 <= a < i && interacts(tiles@, a, b) ==> r@.contains((a as usize, b as usize)),
        decreases n - i,
    {
        let mut j: usize = 0;
        while j < n
            invariant
                n == tiles@.len(),
                0 <= i < n,
                0 <= j <= n,
                forall|m: int| 0 <= m < r@.len() ==> interacts(tiles@, #[trigger] r@[m].0 as int, r@[m].1 as int),
                forall|m: int| 0 <= m < r@.len() ==> (#[trigger] r@[m]).0 < i || (r@[m].0 == i && r@[m].1 < j),
                forall|m: int, q: int| 0 <= m < q < r@.len() ==> pair_before(#[trigger] r@[m], #[trigger] r@[q]),
                forall|a: int, b: int| 0 <= a < i && interacts(tiles@, a, b) ==> r@.contains((a as usize, b as usize)),
                forall|b: int| 0 <= b < j && interacts(tiles@, i as int, b) ==> r@.contains((i, b as usize)),
            decreases n - j,
        {
            if i != j && tiles_adjacent(&tiles[i], &tiles[j]) {
                let ghost before = r@;
                r.push((i, j));
                proof {
                    assert forall|a: int, b: int| 0 <= a < i && interacts(tiles@, a, b) implies r@.contains((a as usize, b as usize)) by {
                        let m = choose|m: int| 0 <= m < before.len() && before[m] == (a as usize, b as usize);
                        assert(r@[m] == before[m]);
                    }
                    assert forall|b: int| 0 <= b < j + 1 && interacts(tiles@, i as int, b) implies r@.contains((i, b as usize)) by {
                        if b < j {
                            let m = choose|m: int| 0 <= m < before.len() && before[m] == (i, b as usize);
                            assert(r@[m] == before[m]);
                        } else {
                            assert(r@[before.len() as int] == (i, j));
                        }
                    }
                }
            }
            j += 1;
        }
        i += 1;
    }
    proof {
        assert forall|a: usize, b: usize| #[trigger] r@.contains((a, b)) implies interacts(tiles@, a as int, b as int) by {
            let m = choose|m: int| 0 <= m < r@.len() && r@[m] == (a, b);
            assert(interacts(tiles@, r@[m].0 as int, r@[m].1 as int));
        }
        assert forall|a: usize, b: usize| interacts(tiles@, a as int, b as int) implies #[trigger] r@.contains((a, b)) by {
            assert(r@.contains((a as int as usize, b as int as usize)));
        }
    }
    r
}

} // verus!
