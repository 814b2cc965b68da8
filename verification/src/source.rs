//! Synthetic sample generation.
//!
//! A source either draws uniformly from a seeded random generator within a
//! configured fixed-point range, or replays a fixed script of values
//! cyclically. The script form is the injectable generator that makes tests
//! deterministic; the seeded form is what a simulation run uses. Each session
//! owns its source, so sessions stay independent.

use vstd::prelude::*;

verus! {

/// The random number generator of the `rand` crate used by seeded sources.
/// Verus treats its values as opaque.
#[verifier::external_type_specification]
#[verifier::external_body]
pub struct ExStdRng(rand::rngs::StdRng);

/// Relies on `rand::SeedableRng::seed_from_u64`: builds a generator from a
/// seed. Nothing is claimed of the state it returns.
#[verifier::external_body]
fn rng_from_seed(seed: u64) -> rand::rngs::StdRng {
    <rand::rngs::StdRng as rand::SeedableRng>::seed_from_u64(seed)
}

/// Relies on `rand::Rng::gen_range` over the inclusive range `lo..=hi`: the
/// sample is uniform within the range, so it lies between the two bounds; a
/// non-empty range never panics.
#[verifier::external_body]
fn rng_draw(rng: &mut rand::rngs::StdRng, lo: i64, hi: i64) -> (s: i64)
    requires
        lo <= hi,
    ensures
        lo <= s <= hi,
{
    rand::Rng::gen_range(rng, lo..=hi)
}

/// The values a scripted source yields: `k` samples taken cyclically from
/// `values` starting at index `start`.
pub open spec fn scripted_take(values: Seq<i64>, start: int, k: nat) -> Seq<i64> {
    Seq::new(k, |i: int| values[(start + i) % (values.len() as int)])
}

/// One session's private sample generator.
pub enum SampleSource {
    /// Uniform random samples in `lo..=hi` from a generator seeded once.
    Seeded { rng: rand::rngs::StdRng, lo: i64, hi: i64 },
    /// Replays `values` cyclically, starting at `next`.
    Scripted { values: Vec<i64>, next: usize },
}

impl SampleSource {
    /// The script of a scripted source.
    pub open spec fn script(&self) -> Seq<i64>
        recommends
            self is Scripted,
    {
        self->Scripted_values@
    }

    /// The cursor of a scripted source.
    pub open spec fn cursor(&self) -> int
        recommends
            self is Scripted,
    {
        self->Scripted_next as int
    }

    /// The lower sample bound of a seeded source.
    pub open spec fn lower(&self) -> int
        recommends
            self is Seeded,
    {
        self->Seeded_lo as int
    }

    /// The upper sample bound of a seeded source.
    pub open spec fn upper(&self) -> int
        recommends
            self is Seeded,
    {
        self->Seeded_hi as int
    }

    /// A seeded range is non-empty; a script is non-empty and its cursor
    /// stays inside it.
    pub open spec fn wf(&self) -> bool {
        match self {
            SampleSource::Seeded { lo, hi, .. } => *lo <= *hi,
            SampleSource::Scripted { values, next } => values@.len() > 0 && (*next as int)
                < values@.len(),
        }
    }

    /// Builds a random source from a seed and a sample range.
    pub fn seeded(seed: u64, lo: i64, hi: i64) -> (s: SampleSource)
        requires
            lo <= hi,
        ensures
            s.wf(),
            s matches SampleSource::Seeded { lo: l, hi: h, .. } && l == lo && h == hi,
    {
        SampleSource::Seeded { rng: rng_from_seed(seed), lo, hi }
    }

    /// Builds a deterministic source that replays `values` cyclically.
    pub fn scripted(values: Vec<i64>) -> (s: SampleSource)
        requires
            values@.len() > 0,
        ensures
            s.wf(),
            s matches SampleSource::Scripted { values: v, next } && v@ =~= values@ && next == 0,
    {
        SampleSource::Scripted { values, next: 0 }
    }

    /// Yields the next sample. A seeded source stays seeded with the same
    /// range and the sample lies within it; a scripted source yields the
    /// value under its cursor and advances the cursor cyclically.
    pub fn next_sample(&mut self) -> (s: i64)
        requires
            old(self).wf(),
        ensures
            final (self).wf(),
            *old(self) matches SampleSource::Seeded { lo, hi, .. } ==> {
                &&& *final (self) matches SampleSource::Seeded { lo: l2, hi: h2, .. } && l2 == lo
                    && h2 == hi
                &&& lo <= s <= hi
            },
            *old(self) matches SampleSource::Scripted { values, next } ==> {
                &&& s == values@[next as int]
                &&& *final (self) matches SampleSource::Scripted { values: v2, next: n2 } && v2@
                    =~= values@ && n2 == (next + 1) % (values@.len() as int)
            },
    {
        match self {
            SampleSource::Seeded { rng, lo, hi } => rng_draw(rng, *lo, *hi),
            SampleSource::Scripted { values, next } => {
                let n = values.len();
                let s = values[*next];
                let stepped: usize = if *next + 1 == n {
                    0
                } else {
                    *next + 1
                };
                proof {
                    assert(stepped == (*next + 1) % (values@.len() as int)) by {
                        if *next + 1 == n {
                            vstd::arithmetic::div_mod::lemma_mod_self_0(n as int);
                        } else {
                            vstd::arithmetic::div_mod::lemma_small_mod(
                                (*next + 1) as nat,
                                n as nat,
                            );
                        }
                    }
                }
                *next = stepped;
                s
            },
        }
    }
}

} // verus!
