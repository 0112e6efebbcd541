use vstd::prelude::*;
use vstd::std_specs::cmp::PartialEqSpec;
use vstd::string::StringExecFns;

use itertools::Itertools;

use crate::genes::{
    Gene, GenomeId, ATTACK, DEFILE, GENOME_LENGTH, PHOTOSYNTHESIS, REPRODUCE,
};

verus! {

/// Hands out genome identities, each one once.
///
/// Whoever builds genomes owns an allocator and passes it in; a world keeps
/// one of its own for the children it breeds.
#[derive(Debug)]
pub struct GenomeIds {
    pub next: GenomeId,
}

impl GenomeIds {
    /// An allocator whose first identity is 1.
    pub fn new() -> (r: GenomeIds)
        ensures
            r.next == 1,
    {
        GenomeIds { next: 1 }
    }

    /// Whether another identity can still be handed out.
    pub open spec fn can_allocate(&self) -> bool {
        self.next < u64::MAX
    }

    /// A fresh identity: the counter's value, which is then advanced.
    pub fn fresh(&mut self) -> (r: GenomeId)
        requires
            old(self).can_allocate(),
        ensures
            r == old(self).next,
            final(self).next == old(self).next + 1,
    {
        let r = self.next;
        self.next = self.next + 1;
        r
    }
}

/// A genome: a fixed-length gene tape and an identity.
///
/// Two genomes compare equal when their genes do, whatever their identities.
#[derive(Debug)]
pub struct Genome {
    pub id: GenomeId,
    pub genes: [Gene; GENOME_LENGTH],
}

/// A tape holding `g` at every position.
pub open spec fn uniform_genes(g: Gene) -> Seq<Gene> {
    Seq::new(GENOME_LENGTH as nat, |i: int| g)
}

/// A tape alternating photosynthesis (even positions) and reproduction (odd).
pub open spec fn alternating_genes() -> Seq<Gene> {
    Seq::new(GENOME_LENGTH as nat, |i: int| if i % 2 != 0 { REPRODUCE } else { PHOTOSYNTHESIS })
}

/// The character of a decimal digit.
pub open spec fn digit_char(d: nat) -> char {
    seq!['0', '1', '2', '3', '4', '5', '6', '7', '8', '9'][d as int]
}

/// `n` written in decimal, without leading zeros.
pub open spec fn decimal(n: nat) -> Seq<char>
    decreases n,
{
    if n < 10 {
        seq![digit_char(n)]
    } else {
        decimal(n / 10).push(digit_char(n % 10))
    }
}

/// The values of `s` in decimal, separated by single spaces.
pub open spec fn spaced_decimals(s: Seq<usize>) -> Seq<char>
    decreases s.len(),
{
    if s.len() == 0 {
        seq![]
    } else if s.len() == 1 {
        decimal(s[0] as nat)
    } else {
        spaced_decimals(s.drop_last()) + seq![' '] + decimal(s.last() as nat)
    }
}

/// Relies on itertools' `Itertools::format`: the items written with their
/// `Display` impl (decimal for integers), separated by the given text.
#[verifier::external_body]
fn space_separated(genes: &[Gene; GENOME_LENGTH]) -> (r: String)
    ensures
        r@ == spaced_decimals(genes@),
{
    format!("{}", genes.iter().format(" "))
}

impl Genome {
    /// A genome of pure photosynthesis.
    pub fn new_plant(ids: &mut GenomeIds) -> (r: Genome)
        requires
            old(ids).can_allocate(),
        ensures
            r.id == old(ids).next,
            final(ids).next == old(ids).next + 1,
            r.genes@ == uniform_genes(PHOTOSYNTHESIS),
    {
        Genome { id: ids.fresh(), genes: [PHOTOSYNTHESIS; GENOME_LENGTH] }
    }

    /// A plant that also reproduces: photosynthesis and reproduction alternate.
    pub fn new_reproducing_plant(ids: &mut GenomeIds) -> (r: Genome)
        requires
            old(ids).can_allocate(),
        ensures
            r.id == old(ids).next,
            final(ids).next == old(ids).next + 1,
            r.genes@ == alternating_genes(),
    {
        let mut genes = [PHOTOSYNTHESIS; GENOME_LENGTH];
        let mut i: usize = 0;
        while i < GENOME_LENGTH
            invariant
                i <= GENOME_LENGTH,
                genes@.len() == GENOME_LENGTH,
                forall|j: int| 0 <= j < i ==> genes@[j] == alternating_genes()[j],
                forall|j: int| i <= j < GENOME_LENGTH ==> genes@[j] == PHOTOSYNTHESIS,
            decreases GENOME_LENGTH - i,
        {
            if i % 2 != 0 {
                genes[i] = REPRODUCE;
            }
            i = i + 1;
        }
        assert(genes@ =~= alternating_genes());
        Genome { id: ids.fresh(), genes }
    }

    /// A genome of pure attack.
    pub fn new_predator(ids: &mut GenomeIds) -> (r: Genome)
        requires
            old(ids).can_allocate(),
        ensures
            r.id == old(ids).next,
            final(ids).next == old(ids).next + 1,
            r.genes@ == uniform_genes(ATTACK),
    {
        Genome { id: ids.fresh(), genes: [ATTACK; GENOME_LENGTH] }
    }

    /// A genome of pure reproduction.
    pub fn new_yeast(ids: &mut GenomeIds) -> (r: Genome)
        requires
            old(ids).can_allocate(),
        ensures
            r.id == old(ids).next,
            final(ids).next == old(ids).next + 1,
            r.genes@ == uniform_genes(REPRODUCE),
    {
        Genome { id: ids.fresh(), genes: [REPRODUCE; GENOME_LENGTH] }
    }

    /// A genome of pure defiling.
    pub fn new_defiler(ids: &mut GenomeIds) -> (r: Genome)
        requires
            old(ids).can_allocate(),
        ensures
            r.id == old(ids).next,
            final(ids).next == old(ids).next + 1,
            r.genes@ == uniform_genes(DEFILE),
    {
        Genome { id: ids.fresh(), genes: [DEFILE; GENOME_LENGTH] }
    }

    /// The identity of this genome.
    pub fn id(&self) -> (r: GenomeId)
        ensures
            r == self.id,
    {
        self.id
    }

    /// Overwrites the gene at `index`.
    pub fn mutate(&mut self, index: usize, new_value: Gene)
        requires
            index < GENOME_LENGTH,
        ensures
            final(self).id == old(self).id,
            final(self).genes@ == old(self).genes@.update(index as int, new_value),
    {
        self.genes[index] = new_value;
    }

    /// A copy of the genes under a fresh identity.
    pub fn clone(&self, ids: &mut GenomeIds) -> (r: Genome)
        requires
            old(ids).can_allocate(),
        ensures
            r.id == old(ids).next,
            final(ids).next == old(ids).next + 1,
            r.genes@ == self.genes@,
    {
        Genome { id: ids.fresh(), genes: self.genes }
    }

    /// The genes as text: `Genome genes: ` and then every gene in decimal,
    /// separated by single spaces.
    pub fn to_debug_string(&self) -> (r: String)
        ensures
            r@ == "Genome genes: "@ + spaced_decimals(self.genes@),
    {
        let prefix = String::from_str("Genome genes: ");
        let genes = space_separated(&self.genes);
        prefix.concat(genes.as_str())
    }
}

impl PartialEq for Genome {
    fn eq(&self, other: &Genome) -> (r: bool)
        ensures
            r == (self.genes@ == other.genes@),
    {
        let mut i: usize = 0;
        while i < GENOME_LENGTH
            invariant
                i <= GENOME_LENGTH,
                self.genes@.len() == GENOME_LENGTH,
                other.genes@.len() == GENOME_LENGTH,
                forall|j: int| 0 <= j < i ==> self.genes@[j] == other.genes@[j],
            decreases GENOME_LENGTH - i,
        {
            if self.genes[i] != other.genes[i] {
                return false;
            }
            i = i + 1;
        }
        assert(self.genes@ =~= other.genes@);
        true
    }
}

impl vstd::std_specs::cmp::PartialEqSpecImpl for Genome {
    open spec fn obeys_eq_spec() -> bool {
        true
    }

    open spec fn eq_spec(&self, other: &Genome) -> bool {
        self.genes@ == other.genes@
    }
}

/// Equality of genomes looks at the genes only: two genomes with the same
/// genes are equal whatever their identities, and a genome in which one gene
/// was overwritten with a different value (`mutated`, as `mutate` leaves it)
/// is no longer equal to them.
pub proof fn lemma_genome_equality_ignores_id(a: Genome, b: Genome, mutated: Genome, index: int, value: Gene)
    requires
        a.genes@ == b.genes@,
        0 <= index < GENOME_LENGTH,
        b.genes@[index] != value,
        mutated.genes@ == b.genes@.update(index, value),
    ensures
        a.eq_spec(&b),
        !a.eq_spec(&mutated),
{
    assert(a.genes@[index] != mutated.genes@[index]);
}

} // verus!
