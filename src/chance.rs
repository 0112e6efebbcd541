use vstd::prelude::*;

use rand::Rng;

use crate::genes::{GENE_COUNT, GENOME_LENGTH};
use crate::settings::{Settings, MUTATION_SCALE};

verus! {

/// Relies on rand's `Rng::gen_range(0, n)` on the thread-local generator:
/// a value in `[0, n)`; it panics when the range is empty.
#[verifier::external_body]
pub(crate) fn random_below(n: usize) -> (r: usize)
    requires
        0 < n,
    ensures
        r < n,
{
    rand::thread_rng().gen_range(0, n)
}

/// Relies on rand's `Rng::gen_ratio(numerator, denominator)` on the
/// thread-local generator: `false` whenever the numerator is 0, `true`
/// whenever it equals the denominator; it panics when the denominator is 0
/// or below the numerator.
#[verifier::external_body]
pub(crate) fn random_ratio(numerator: u32, denominator: u32) -> (r: bool)
    requires
        0 < denominator,
        numerator <= denominator,
    ensures
        numerator == 0 ==> !r,
        numerator == denominator ==> r,
{
    rand::thread_rng().gen_ratio(numerator, denominator)
}

/// The chance outcomes of one reproduction: whether the child mutates,
/// which gene is overwritten and with what, and which way the child faces.
#[derive(Clone, Copy, Debug, PartialEq, Eq, Structural)]
pub struct ChildDraw {
    pub mutate: bool,
    pub index: usize,
    pub gene: usize,
    pub direction: usize,
}

impl ChildDraw {
    /// Whether this outcome can come from a draw under `settings`: every
    /// value is in range, and nothing mutates when the chance is zero.
    pub open spec fn valid(&self, settings: Settings) -> bool {
        &&& self.index < GENOME_LENGTH
        &&& self.gene < GENE_COUNT
        &&& self.direction < 8
        &&& settings.mutation_probability == 0 ==> !self.mutate
    }

    /// An outcome that mutates nothing and faces north.
    pub fn quiet() -> (r: ChildDraw)
        ensures
            r == (ChildDraw { mutate: false, index: 0, gene: 0, direction: 0 }),
    {
        ChildDraw { mutate: false, index: 0, gene: 0, direction: 0 }
    }

    /// Draws the outcomes of one reproduction under `settings`.
    pub fn random(settings: &Settings) -> (r: ChildDraw)
        ensures
            r.valid(*settings),
            settings.mutation_probability >= MUTATION_SCALE ==> r.mutate,
    {
        let chance = if settings.mutation_probability < MUTATION_SCALE {
            settings.mutation_probability
        } else {
            MUTATION_SCALE
        };
        let mutate = random_ratio(chance, MUTATION_SCALE);
        let index = random_below(GENOME_LENGTH);
        let gene = random_below(GENE_COUNT);
        let direction = random_below(8);
        ChildDraw { mutate, index, gene, direction }
    }
}

} // verus!
