use vstd::prelude::*;

verus! {

/// The lowest-fitness position seen so far, if any. Fitness values are order
/// keys: a lower key is a better (lower) fitness.
pub struct BestSoFar {
    best: Option<(Vec<u64>, u64)>,
}

/// The result of offering a candidate of fitness `fitness` at `pos` to `best`:
/// it replaces the held one only where none is held or it is strictly better.
pub open spec fn offered(best: Option<(Seq<u64>, u64)>, pos: Seq<u64>, fitness: u64) -> Option<(Seq<u64>, u64)> {
    match best {
        None => Some((pos, fitness)),
        Some((p, f)) => if fitness < f { Some((pos, fitness)) } else { Some((p, f)) },
    }
}

impl BestSoFar {
    pub closed spec fn view(&self) -> Option<(Seq<u64>, u64)> {
        match self.best {
            None => None,
            Some((p, f)) => Some((p@, f)),
        }
    }

    pub fn new() -> (r: BestSoFar)
        ensures
            r@ is None,
    {
        BestSoFar { best: None }
    }

    /// Offers a candidate; returns whether it became the best.
    pub fn offer(&mut self, pos: Vec<u64>, fitness: u64) -> (r: bool)
        ensures
            final(self)@ == offered(old(self)@, pos@, fitness),
            r == (old(self)@ is None || fitness < old(self)@.unwrap().1),
    {
        let better = match &self.best {
            None => true,
            Some((_, f)) => fitness < *f,
        };
        if better {
            self.best = Some((pos, fitness));
        }
        better
    }

    /// The best fitness held, if any.
    pub fn fitness(&self) -> (r: Option<u64>)
        ensures
            r == (match self@ {
                None => None,
                Some((_, f)) => Some(f),
            }),
    {
        match &self.best {
            None => None,
            Some((_, f)) => Some(*f),
        }
    }

    /// The best position held, if any.
    pub fn position(&self) -> (r: Option<&Vec<u64>>)
        ensures
            r is None <==> self@ is None,
            r is Some ==> r.unwrap()@ == self@.unwrap().0,
    {
        match &self.best {
            None => None,
            Some((p, _)) => Some(p),
        }
    }
}

} // verus!
