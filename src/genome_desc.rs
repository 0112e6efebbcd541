use vstd::prelude::*;

use crate::genes::{Gene, ATTACK, DEFILE, GENOME_LENGTH, PHOTOSYNTHESIS, REPRODUCE};
use crate::genome::Genome;

verus! {

/// How many times `g` occurs in `s`.
pub open spec fn count_gene(s: Seq<Gene>, g: Gene) -> nat
    decreases s.len(),
{
    if s.len() == 0 {
        0
    } else {
        count_gene(s.drop_last(), g) + if s.last() == g {
            1nat
        } else {
            0nat
        }
    }
}

/// A summary of a genome: how many of its genes fall in each simple category.
#[derive(Clone, Copy, Debug, PartialEq, Eq, Structural)]
pub struct GenomeDesc {
    pub reproduces: usize,
    pub attacks: usize,
    pub photosynthesis: usize,
    pub defiles: usize,
}

impl GenomeDesc {
    /// Whether this summary counts the genes of `genes` exactly.
    pub open spec fn describes(&self, genes: Seq<Gene>) -> bool {
        &&& self.reproduces == count_gene(genes, REPRODUCE)
        &&& self.attacks == count_gene(genes, ATTACK)
        &&& self.photosynthesis == count_gene(genes, PHOTOSYNTHESIS)
        &&& self.defiles == count_gene(genes, DEFILE)
    }

    /// Counts the reproduce, attack, photosynthesis and defile genes of `genome`.
    pub fn build_from(genome: &Genome) -> (r: GenomeDesc)
        ensures
            r.describes(genome.genes@),
    {
        let mut reproduces: usize = 0;
        let mut attacks: usize = 0;
        let mut photosynthesis: usize = 0;
        let mut defiles: usize = 0;
        let ghost genes = genome.genes@;
        let mut i: usize = 0;
        while i < GENOME_LENGTH
            invariant
                i <= GENOME_LENGTH,
                genes == genome.genes@,
                genes.len() == GENOME_LENGTH,
                reproduces == count_gene(genes.take(i as int), REPRODUCE),
                attacks == count_gene(genes.take(i as int), ATTACK),
                photosynthesis == count_gene(genes.take(i as int), PHOTOSYNTHESIS),
                defiles == count_gene(genes.take(i as int), DEFILE),
                reproduces <= i,
                attacks <= i,
                photosynthesis <= i,
                defiles <= i,
            decreases GENOME_LENGTH - i,
        {
            let gene = genome.genes[i];
            assert(genes.take(i + 1).drop_last() =~= genes.take(i as int));
            if gene == ATTACK {
                attacks = attacks + 1;
            } else if gene == REPRODUCE {
                reproduces = reproduces + 1;
            } else if gene == PHOTOSYNTHESIS {
                photosynthesis = photosynthesis + 1;
            } else if gene == DEFILE {
                defiles = defiles + 1;
            }
            i = i + 1;
        }
        assert(genes.take(GENOME_LENGTH as int) =~= genes);
        GenomeDesc { reproduces, attacks, photosynthesis, defiles }
    }
}

} // verus!
