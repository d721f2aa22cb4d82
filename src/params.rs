use vstd::prelude::*;

verus! {

/// The hyperparameters the optimizers read.
#[derive(PartialEq, Eq, Structural, Clone, Copy, Debug)]
pub enum ParamName {
    /// PSO inertia.
    W,
    /// PSO cognitive coefficient.
    PhiP,
    /// PSO social coefficient.
    PhiG,
    /// Size of the population.
    ParticleCount,
    /// GSA initial gravitational constant.
    G0,
    /// GSA decay rate of the gravitational constant.
    Alpha,
    /// Tiled GSA: tiles along each axis of the search box.
    TilesPerAxis,
}

impl ParamName {
    /// The key under which the parameter is written out.
    pub fn key(&self) -> (r: &'static str)
        ensures
            r@ == param_key(*self),
    {
        match self {
            ParamName::W => "w",
            ParamName::PhiP => "phi_p",
            ParamName::PhiG => "phi_g",
            ParamName::ParticleCount => "particle_count",
            ParamName::G0 => "g0",
            ParamName::Alpha => "alpha",
            ParamName::TilesPerAxis => "tiles_per_axis",
        }
    }
}

pub open spec fn param_key(n: ParamName) -> Seq<char> {
    match n {
        ParamName::W => "w"@,
        ParamName::PhiP => "phi_p"@,
        ParamName::PhiG => "phi_g"@,
        ParamName::ParticleCount => "particle_count"@,
        ParamName::G0 => "g0"@,
        ParamName::Alpha => "alpha"@,
        ParamName::TilesPerAxis => "tiles_per_axis"@,
    }
}

/// A hyperparameter value: a decimal number with two places, held in
/// hundredths (`Decimal(80)` is 0.80), or an integer.
#[derive(PartialEq, Eq, Structural, Clone, Copy, Debug)]
pub enum ParamValue {
    Decimal(i64),
    Int(isize),
}

/// The value of `n` in a list of named values: the first entry of that name.
pub open spec fn param_lookup(entries: Seq<(ParamName, ParamValue)>, n: ParamName) -> Option<ParamValue>
    decreases entries.len(),
{
    if entries.len() == 0 {
        None
    } else if entries[0].0 == n {
        Some(entries[0].1)
    } else {
        param_lookup(entries.drop_first(), n)
    }
}

/// A set of hyperparameters, each name at most once, in the order in which
/// the names were first set.
pub struct Params {
    entries: Vec<(ParamName, ParamValue)>,
}

impl Params {
    pub closed spec fn entries_spec(&self) -> Seq<(ParamName, ParamValue)> {
        self.entries@
    }

    /// The value of a parameter, if set.
    pub open spec fn get_spec(&self, n: ParamName) -> Option<ParamValue> {
        param_lookup(self.entries_spec(), n)
    }

    pub open spec fn wf(&self) -> bool {
        forall|i: int, j: int| 0 <= i < j < self.entries_spec().len() ==> #[trigger] self.entries_spec()[i].0 != #[trigger] self.entries_spec()[j].0
    }

    pub fn new() -> (r: Params)
        ensures
            r.wf(),
            r.entries_spec().len() == 0,
            forall|n: ParamName| #[trigger] r.get_spec(n) is None,
    {
        let r = Params { entries: Vec::new() };
        assert forall|n: ParamName| #[trigger] r.get_spec(n) is None by {
            assert(r.entries@.len() == 0);
        }
        r
    }

    /// The value of a parameter, if set.
    pub fn get(&self, n: ParamName) -> (r: Option<ParamValue>)
        ensures
            r == self.get_spec(n),
    {
        let mut i: usize = 0;
        proof {
            assert(self.entries@.subrange(0, self.entries@.len() as int) =~= self.entries@);
        }
        while i < self.entries.len()
            invariant
                0 <= i <= self.entries@.len(),
                param_lookup(self.entries@, n) == param_lookup(self.entries@.subrange(i as int, self.entries@.len() as int), n),
            decreases self.entries@.len() - i,
        {
            proof {
                let rest = self.entries@.subrange(i as int, self.entries@.len() as int);
                assert(rest.drop_first() =~= self.entries@.subrange(i + 1, self.entries@.len() as int));
            }
            if self.entries[i].0 == n {
                return Some(self.entries[i].1);
            }
            i += 1;
        }
        None
    }

    /// Sets a parameter, replacing its value where it was set.
    pub fn set(&mut self, n: ParamName, v: ParamValue)
        requires
            old(self).wf(),
        ensures
            final(self).wf(),
            forall|m: ParamName| #[trigger] final(self).get_spec(m) == if m == n { Some(v) } else { old(self).get_spec(m) },
    {
        let ghost e0 = self.entries@;
        let mut i: usize = 0;
        while i < self.entries.len()
            invariant
                self.entries@ == e0,
                e0 == old(self).entries_spec(),
                old(self).wf(),
                0 <= i <= e0.len(),
                forall|k: int| 0 <= k < i ==> (#[trigger] e0[k]).0 != n,
            decreases e0.len() - i,
        {
            if self.entries[i].0 == n {
                self.entries.set(i, (n, v));
                proof {
                    assert(e0[i as int].0 == n);
                    lemma_lookup_replace(e0, i as int, v);
                    assert(self.entries@ =~= e0.update(i as int, (e0[i as int].0, v)));
                    assert forall|a: int| 0 <= a < e0.len() implies #[trigger] self.entries@[a].0 == e0[a].0 by {}
                }
                return;
            }
            i += 1;
        }
        proof {
            lemma_lookup_append(e0, n, v);
        }
        self.entries.push((n, v));
    }

    /// The parameters set, each name once, in the order in which they were first set.
    pub fn entries(&self) -> (r: &Vec<(ParamName, ParamValue)>)
        ensures
            r@ == self.entries_spec(),
    {
        &self.entries
    }

    /// A copy of this parameter set.
    pub fn copy(&self) -> (r: Params)
        ensures
            r.entries_spec() == self.entries_spec(),
    {
        let mut e: Vec<(ParamName, ParamValue)> = Vec::with_capacity(self.entries.len());
        let mut i: usize = 0;
        while i < self.entries.len()
            invariant
                0 <= i <= self.entries@.len(),
                e@ == self.entries@.subrange(0, i as int),
            decreases self.entries@.len() - i,
        {
            e.push(self.entries[i]);
            i += 1;
            proof {
                assert(e@ =~= self.entries@.subrange(0, i as int));
            }
        }
        proof {
            assert(e@ =~= self.entries@);
        }
        Params { entries: e }
    }
}

proof fn lemma_lookup_replace(e: Seq<(ParamName, ParamValue)>, i: int, v: ParamValue)
    requires
        0 <= i < e.len(),
        forall|k: int| 0 <= k < i ==> (#[trigger] e[k]).0 != e[i].0,
    ensures
        forall|m: ParamName| #[trigger] param_lookup(e.update(i, (e[i].0, v)), m) == if m == e[i].0 { Some(v) } else { param_lookup(e, m) },
    decreases i,
{
    let u = e.update(i, (e[i].0, v));
    if i > 0 {
        lemma_lookup_replace(e.drop_first(), i - 1, v);
        assert(u.drop_first() =~= e.drop_first().update(i - 1, (e[i].0, v)));
        assert forall|m: ParamName| #[trigger] param_lookup(u, m) == if m == e[i].0 { Some(v) } else { param_lookup(e, m) } by {
            assert(u[0] == e[0]);
            assert(e.drop_first()[i - 1] == e[i]);
            assert(param_lookup(u, m) == if u[0].0 == m { Some(u[0].1) } else { param_lookup(u.drop_first(), m) });
            assert(param_lookup(e, m) == if e[0].0 == m { Some(e[0].1) } else { param_lookup(e.drop_first(), m) });
        }
    } else {
        assert forall|m: ParamName| #[trigger] param_lookup(u, m) == if m == e[i].0 { Some(v) } else { param_lookup(e, m) } by {
            assert(u[0] == (e[0].0, v));
            assert(u.drop_first() =~= e.drop_first());
            assert(param_lookup(u, m) == if u[0].0 == m { Some(u[0].1) } else { param_lookup(u.drop_first(), m) });
            assert(param_lookup(e, m) == if e[0].0 == m { Some(e[0].1) } else { param_lookup(e.drop_first(), m) });
        }
    }
}

proof fn lemma_lookup_append(e: Seq<(ParamName, ParamValue)>, n: ParamName, v: ParamValue)
    requires
        forall|k: int| 0 <= k < e.len() ==> (#[trigger] e[k]).0 != n,
    ensures
        forall|m: ParamName| #[trigger] param_lookup(e.push((n, v)), m) == if m == n { Some(v) } else { param_lookup(e, m) },
    decreases e.len(),
{
    let u = e.push((n, v));
    if e.len() > 0 {
        lemma_lookup_append(e.drop_first(), n, v);
        assert(u.drop_first() =~= e.drop_first().push((n, v)));
        assert forall|m: ParamName| #[trigger] param_lookup(u, m) == if m == n { Some(v) } else { param_lookup(e, m) } by {
            assert(u[0] == e[0]);
            assert(param_lookup(u, m) == if u[0].0 == m { Some(u[0].1) } else { param_lookup(u.drop_first(), m) });
            assert(param_lookup(e, m) == if e[0].0 == m { Some(e[0].1) } else { param_lookup(e.drop_first(), m) });
        }
    } else {
        assert forall|m: ParamName| #[trigger] param_lookup(u, m) == if m == n { Some(v) } else { param_lookup(e, m) } by {
            assert(u[0] == (n, v));
            assert(u.drop_first().len() == 0);
            assert(param_lookup(u.drop_first(), m) is None);
            assert(param_lookup(e, m) is None);
            assert(u.len() == 1);
            assert(param_lookup(u, m) == if u[0].0 == m { Some(u[0].1) } else { param_lookup(u.drop_first(), m) });
        }
    }
}


/// The decimal digits of `n`, as ASCII, most significant first.
pub open spec fn digits(n: nat) -> Seq<u8>
    decreases n,
{
    if n < 10 {
        seq![(48 + n) as u8]
    } else {
        digits(n / 10).push((48 + n % 10) as u8)
    }
}

/// `-` before a negative number.
pub open spec fn sign_text(negative: bool) -> Seq<u8> {
    if negative { seq![45u8] } else { seq![] }
}

/// How a value is written out: an integer as it is; a decimal with exactly
/// two places after the point.
pub open spec fn value_text(v: ParamValue) -> Seq<u8> {
    match v {
        ParamValue::Int(c) => sign_text(c < 0) + digits(abs_int(c as int)),
        ParamValue::Decimal(h) => {
            let a = abs_int(h as int);
            sign_text(h < 0) + digits(a / 100) + seq![46u8, (48 + (a % 100) / 10) as u8, (48 + a % 10) as u8]
        },
    }
}

pub open spec fn abs_int(x: int) -> nat {
    if x < 0 { (-x) as nat } else { x as nat }
}

/// The decimal digits of `n`, as ASCII.
pub fn digits_of(n: u64) -> (r: Vec<u8>)
    ensures
        r@ == digits(n as nat),
    decreases n,
{
    if n < 10 {
        vec![48u8 + n as u8]
    } else {
        let mut v = digits_of(n / 10);
        v.push(48u8 + (n % 10) as u8);
        v
    }
}

fn magnitude(x: i64) -> (r: u64)
    ensures
        r as nat == abs_int(x as int),
{
    if x < 0 {
        (0i128 - x as i128) as u64
    } else {
        x as u64
    }
}

impl ParamValue {
    /// The value as ASCII text: `Decimal(80)` is `0.80`, `Decimal(-400)` is
    /// `-4.00`, `Int(30)` is `30`.
    pub fn to_text(&self) -> (r: Vec<u8>)
        ensures
            r@ == value_text(*self),
    {
        match self {
            ParamValue::Int(c) => {
                let mut r: Vec<u8> = if *c < 0 { vec![45u8] } else { Vec::new() };
                let mut d = digits_of(magnitude(*c as i64));
                r.append(&mut d);
                r
            },
            ParamValue::Decimal(h) => {
                let a = magnitude(*h);
                let mut r: Vec<u8> = if *h < 0 { vec![45u8] } else { Vec::new() };
                let mut d = digits_of(a / 100);
                r.append(&mut d);
                r.push(46u8);
                r.push(48u8 + ((a % 100) / 10) as u8);
                r.push(48u8 + (a % 10) as u8);
                proof {
                    assert(r@ =~= value_text(*self));
                }
                r
            },
        }
    }
}

} // verus!
