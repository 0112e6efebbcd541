use vstd::prelude::*;

use std::collections::HashMap;

use crate::genes::GenomeId;
use crate::genome::Genome;
use crate::genome_desc::GenomeDesc;

verus! {

broadcast use vstd::std_specs::hash::group_hash_axioms;

/// The genomes of living organisms, keyed by identity, each with its summary.
pub struct GenomeStorage {
    pub genomes: HashMap<GenomeId, Genome>,
    pub descriptors: HashMap<GenomeId, GenomeDesc>,
}

impl GenomeStorage {
    /// Every genome is stored under its own identity, and every stored
    /// genome has exactly one summary, which counts its genes.
    pub open spec fn wf(&self) -> bool {
        &&& self.descriptors@.dom() == self.genomes@.dom()
        &&& forall|id: GenomeId| #[trigger]
            self.genomes@.contains_key(id) ==> {
                &&& self.genomes@[id].id == id
                &&& self.descriptors@[id].describes(self.genomes@[id].genes@)
            }
    }

    /// An empty storage.
    pub fn new() -> (r: GenomeStorage)
        ensures
            r.wf(),
            r.genomes@ == Map::<GenomeId, Genome>::empty(),
    {
        GenomeStorage { genomes: HashMap::new(), descriptors: HashMap::new() }
    }

    /// Stores `genome` under its identity, replacing any genome stored there,
    /// and returns that identity.
    pub fn put(&mut self, genome: Genome) -> (r: GenomeId)
        requires
            old(self).wf(),
        ensures
            final(self).wf(),
            r == genome.id,
            final(self).genomes@ == old(self).genomes@.insert(genome.id, genome),
    {
        let id = genome.id();
        let desc = GenomeDesc::build_from(&genome);
        self.descriptors.insert(id, desc);
        self.genomes.insert(id, genome);
        proof {
            assert(self.descriptors@.dom() =~= self.genomes@.dom());
        }
        id
    }

    /// Forgets the genome stored under `id`, if any.
    pub fn remove(&mut self, id: GenomeId)
        requires
            old(self).wf(),
        ensures
            final(self).wf(),
            final(self).genomes@ == old(self).genomes@.remove(id),
    {
        self.genomes.remove(&id);
        self.descriptors.remove(&id);
        proof {
            assert(self.descriptors@.dom() =~= self.genomes@.dom());
        }
    }

    /// The genome stored under `id`, if any.
    pub fn get(&self, id: GenomeId) -> (r: Option<&Genome>)
        ensures
            match r {
                Some(g) => self.genomes@.contains_key(id) && *g == self.genomes@[id],
                None => !self.genomes@.contains_key(id),
            },
    {
        self.genomes.get(&id)
    }

    /// The summary of the genome stored under `id`, if any.
    pub fn describe(&self, id: GenomeId) -> (r: Option<&GenomeDesc>)
        requires
            self.wf(),
        ensures
            match r {
                Some(d) => self.genomes@.contains_key(id) && d.describes(self.genomes@[id].genes@),
                None => !self.genomes@.contains_key(id),
            },
    {
        self.descriptors.get(&id)
    }
}

} // verus!
