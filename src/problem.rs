use vstd::prelude::*;
use crate::fitness::{float_eq_spec, is_nan_spec, lemma_position_eq_refl, position_eq, position_eq_spec};

verus! {

/// A benchmark problem: which function, in how many dimensions, and the
/// memo of the fitness values already computed through the counted path.
///
/// Positions are held as the bit patterns of their coordinates, fitness values
/// as order keys (see `fitness::order_key`).
pub struct Problem {
    function_id: u64,
    dim: usize,
    memo: Vec<(Vec<u64>, u64)>,
    evaluation_count: u64,
}

/// The memo entry for `pos`, if any: the first entry whose position equals it.
pub open spec fn memo_lookup(memo: Seq<(Vec<u64>, u64)>, pos: Seq<u64>) -> Option<u64>
    decreases memo.len(),
{
    if memo.len() == 0 {
        None
    } else if position_eq_spec(memo[0].0@, pos) {
        Some(memo[0].1)
    } else {
        memo_lookup(memo.drop_first(), pos)
    }
}

/// `after` is `before` with one more evaluation of `pos`, of fitness `fitness`,
/// counted and kept in the memo.
pub open spec fn recorded(before: Problem, after: Problem, pos: Seq<u64>, fitness: u64) -> bool {
    &&& after.wf()
    &&& after.count_spec() == before.count_spec() + 1
    &&& after.function_id_spec() == before.function_id_spec()
    &&& after.dim_spec() == before.dim_spec()
    &&& forall|p: Seq<u64>| #[trigger] after.cached_spec(p) == match before.cached_spec(p) {
        Some(v) => Some(v),
        None => if position_eq_spec(pos, p) { Some(fitness) } else { None },
    }
}

impl Problem {
    pub closed spec fn memo_view(&self) -> Seq<(Vec<u64>, u64)> {
        self.memo@
    }

    /// The fitness recorded for `pos`, if it was evaluated through the counted path.
    pub open spec fn cached_spec(&self, pos: Seq<u64>) -> Option<u64> {
        memo_lookup(self.memo_view(), pos)
    }

    pub closed spec fn function_id_spec(&self) -> u64 {
        self.function_id
    }

    pub closed spec fn dim_spec(&self) -> usize {
        self.dim
    }

    pub closed spec fn count_spec(&self) -> u64 {
        self.evaluation_count
    }

    /// Each evaluation through the counted path added one memo entry, for a
    /// position equal to no other in the memo.
    pub closed spec fn wf(&self) -> bool {
        &&& self.evaluation_count == self.memo@.len()
        &&& forall|i: int, j: int| 0 <= i < j < self.memo@.len() ==> !position_eq_spec(#[trigger] self.memo@[i].0@, #[trigger] self.memo@[j].0@)
    }

    pub fn new(function_id: u64, dim: usize) -> (r: Problem)
        ensures
            r.wf(),
            r.function_id_spec() == function_id,
            r.dim_spec() == dim,
            r.count_spec() == 0,
            forall|p: Seq<u64>| r.cached_spec(p) is None,
    {
        let r = Problem { function_id, dim, memo: Vec::new(), evaluation_count: 0 };
        assert forall|p: Seq<u64>| r.cached_spec(p) is None by {
            assert(r.memo@.len() == 0);
        }
        r
    }

    pub fn function_id(&self) -> (r: u64)
        ensures
            r == self.function_id_spec(),
    {
        self.function_id
    }

    pub fn dim(&self) -> (r: usize)
        ensures
            r == self.dim_spec(),
    {
        self.dim
    }

    /// The number of evaluations made through the counted path.
    pub fn cnt(&self) -> (r: u64)
        ensures
            r == self.count_spec(),
    {
        self.evaluation_count
    }

    /// Looks `pos` up in the memo. The memo and the counter are left as they are.
    pub fn cached(&self, pos: &Vec<u64>) -> (r: Option<u64>)
        ensures
            r == self.cached_spec(pos@),
    {
        let mut i: usize = 0;
        proof {
            assert(self.memo@.subrange(0, self.memo@.len() as int) =~= self.memo@);
        }
        while i < self.memo.len()
            invariant
                0 <= i <= self.memo@.len(),
                memo_lookup(self.memo@, pos@) == memo_lookup(self.memo@.subrange(i as int, self.memo@.len() as int), pos@),
            decreases self.memo@.len() - i,
        {
            proof {
                let rest = self.memo@.subrange(i as int, self.memo@.len() as int);
                assert(rest.drop_first() =~= self.memo@.subrange(i + 1, self.memo@.len() as int));
            }
            if position_eq(&self.memo[i].0, pos) {
                return Some(self.memo[i].1);
            }
            i += 1;
        }
        proof {
            assert(self.memo@.subrange(i as int, self.memo@.len() as int).len() == 0);
        }
        None
    }

    /// Records the fitness computed for a position that the memo does not hold,
    /// and counts the evaluation.
    pub fn record(&mut self, pos: Vec<u64>, fitness: u64)
        requires
            old(self).wf(),
            old(self).cached_spec(pos@) is None,
            old(self).count_spec() < u64::MAX,
        ensures
            recorded(*old(self), *final(self), pos@, fitness),
    {
        proof {
            lemma_lookup_push(self.memo@, pos, fitness);
            lemma_lookup_none(self.memo@, pos@);
        }
        let ghost before = self.memo@;
        self.memo.push((pos, fitness));
        proof {
            assert forall|i: int, j: int| 0 <= i < j < self.memo@.len() implies !position_eq_spec(#[trigger] self.memo@[i].0@, #[trigger] self.memo@[j].0@) by {
                if j == before.len() {
                    assert(!position_eq_spec(before[i].0@, pos@));
                    lemma_position_eq_symmetric(before[i].0@, pos@);
                } else {
                    assert(self.memo@[i] == before[i]);
                    assert(self.memo@[j] == before[j]);
                }
            }
        }
        self.evaluation_count = self.evaluation_count + 1;
    }
}

/// Memoization: once a position without NaN coordinates has been evaluated
/// through the counted path, looking it up again gives the same fitness, and a
/// lookup leaves the counter as it is (`cached` takes the problem by shared
/// reference).
pub proof fn law_memo_second_call(before: Problem, after: Problem, pos: Seq<u64>, fitness: u64)
    requires
        before.wf(),
        before.cached_spec(pos) is None,
        forall|i: int| 0 <= i < pos.len() ==> !is_nan_spec(#[trigger] pos[i]),
        recorded(before, after, pos, fitness),
    ensures
        after.cached_spec(pos) == Some(fitness),
        after.count_spec() == before.count_spec() + 1,
{
    lemma_position_eq_refl(pos);
    assert(after.cached_spec(pos) == match before.cached_spec(pos) {
        Some(v) => Some(v),
        None => if position_eq_spec(pos, pos) { Some(fitness) } else { None },
    });
}

/// The count of evaluations through the counted path is the number of
/// distinct positions evaluated there: the memo holds one entry per count, and
/// no two of its positions are equal.
pub proof fn law_count_is_distinct_positions(p: Problem)
    requires
        p.wf(),
    ensures
        p.count_spec() == p.memo_view().len(),
        forall|i: int, j: int| 0 <= i < j < p.memo_view().len() ==> !position_eq_spec(#[trigger] p.memo_view()[i].0@, #[trigger] p.memo_view()[j].0@),
{
}

/// A lookup that finds nothing: no entry's position equals the one sought.
proof fn lemma_lookup_none(memo: Seq<(Vec<u64>, u64)>, pos: Seq<u64>)
    requires
        memo_lookup(memo, pos) is None,
    ensures
        forall|i: int| 0 <= i < memo.len() ==> !position_eq_spec(#[trigger] memo[i].0@, pos),
    decreases memo.len(),
{
    if memo.len() > 0 {
        lemma_lookup_none(memo.drop_first(), pos);
        assert forall|i: int| 0 <= i < memo.len() implies !position_eq_spec(#[trigger] memo[i].0@, pos) by {
            if i > 0 {
                assert(memo[i] == memo.drop_first()[i - 1]);
            }
        }
    }
}

/// Floating-point equality of positions does not depend on the order.
proof fn lemma_position_eq_symmetric(a: Seq<u64>, b: Seq<u64>)
    ensures
        position_eq_spec(a, b) == position_eq_spec(b, a),
{
    if position_eq_spec(a, b) {
        assert forall|i: int| 0 <= i < b.len() implies float_eq_spec(#[trigger] b[i], a[i]) by {
            assert(float_eq_spec(a[i], b[i]));
        }
    }
    if position_eq_spec(b, a) {
        assert forall|i: int| 0 <= i < a.len() implies float_eq_spec(#[trigger] a[i], b[i]) by {
            assert(float_eq_spec(b[i], a[i]));
        }
    }
}

/// Appending an entry changes the lookup only where the old memo held nothing.
pub proof fn lemma_lookup_push(memo: Seq<(Vec<u64>, u64)>, pos: Vec<u64>, fitness: u64)
    ensures
        forall|p: Seq<u64>| #[trigger] memo_lookup(memo.push((pos, fitness)), p) == match memo_lookup(memo, p) {
            Some(v) => Some(v),
            None => if position_eq_spec(pos@, p) { Some(fitness) } else { None },
        },
    decreases memo.len(),
{
    let pushed = memo.push((pos, fitness));
    if memo.len() > 0 {
        lemma_lookup_push(memo.drop_first(), pos, fitness);
        assert(pushed.drop_first() =~= memo.drop_first().push((pos, fitness)));
        assert forall|p: Seq<u64>| #[trigger] memo_lookup(pushed, p) == match memo_lookup(memo, p) {
            Some(v) => Some(v),
            None => if position_eq_spec(pos@, p) { Some(fitness) } else { None },
        } by {
            assert(pushed[0] == memo[0]);
            assert(memo_lookup(pushed.drop_first(), p) == memo_lookup(memo.drop_first().push((pos, fitness)), p));
        }
    } else {
        assert forall|p: Seq<u64>| #[trigger] memo_lookup(pushed, p) == match memo_lookup(memo, p) {
            Some(v) => Some(v),
            None => if position_eq_spec(pos@, p) { Some(fitness) } else { None },
        } by {
            assert(pushed[0] == (pos, fitness));
            assert(pushed.drop_first().len() == 0);
            assert(memo_lookup(pushed.drop_first(), p) is None);
        }
    }
}

} // verus!
