use vstd::prelude::*;

use crate::entity::Entity;
use crate::genes::{Coords, Gene, GenomeId, HealthType, GENOME_LENGTH};
use crate::genome_desc::GenomeDesc;
use crate::direction::dir_index;
use crate::world::World;

verus! {

/// What can be read about the organism at one position.
#[derive(Debug, PartialEq, Eq)]
pub struct CellInfo {
    pub x: Coords,
    pub y: Coords,
    pub health: HealthType,
    /// Clockwise position of its facing, north being 0.
    pub direction: usize,
    pub genome_id: GenomeId,
    pub genome: Vec<Gene>,
}

/// What a renderer needs to know of one grid cell.
#[derive(Clone, Copy, Debug, PartialEq, Eq, Structural)]
pub enum EntityProjection {
    Nothing,
    /// A living organism: the summary of its genome and its health.
    Cell { desc: GenomeDesc, health: HealthType },
    Corpse,
}

impl World {
    /// The organism at `(x, y)`: its health, facing, identity and genes.
    /// None when no organism is there.
    pub fn cell_info(&self, x: Coords, y: Coords) -> (r: Option<CellInfo>)
        requires
            self.wf(),
        ensures
            match self@.entity_at(x as int, y as int) {
                Entity::Cell(id) => r matches Some(info) && {
                    &&& info.x == x
                    &&& info.y == y
                    &&& info.health == self@.states[id].health
                    &&& info.direction == dir_index(self@.states[id].direction)
                    &&& info.genome_id == id
                    &&& info.genome@ == self@.genomes[id]
                },
                _ => r is None,
            },
    {
        let index = self.get_index(x, y);
        match self.entities[index] {
            Entity::Cell(genome_id) => {
                proof {
                    assert(self@.cell_at_index(index as int));
                }
                let state = self.get_state(genome_id);
                let genome = match self.get_genome(genome_id) {
                    Some(g) => g,
                    None => {
                        return None;
                    },
                };
                let mut genes: Vec<Gene> = Vec::new();
                let mut i: usize = 0;
                while i < GENOME_LENGTH
                    invariant
                        i <= GENOME_LENGTH,
                        genome.genes@.len() == GENOME_LENGTH,
                        genes@ == genome.genes@.take(i as int),
                    decreases GENOME_LENGTH - i,
                {
                    genes.push(genome.genes[i]);
                    i = i + 1;
                    assert(genes@ =~= genome.genes@.take(i as int));
                }
                assert(genome.genes@.take(GENOME_LENGTH as int) =~= genome.genes@);
                Some(
                    CellInfo {
                        x,
                        y,
                        health: state.health,
                        direction: state.direction.index(),
                        genome_id,
                        genome: genes,
                    },
                )
            },
            _ => None,
        }
    }

    /// What a renderer needs to know of the cell at `(x, y)`: its kind and,
    /// for a living organism, the gene summary and health.
    pub fn project(&self, x: Coords, y: Coords) -> (r: EntityProjection)
        requires
            self.wf(),
        ensures
            match self@.entity_at(x as int, y as int) {
                Entity::Nothing => r == EntityProjection::Nothing,
                Entity::Corpse(_) => r == EntityProjection::Corpse,
                Entity::Cell(id) => r matches EntityProjection::Cell { desc, health } && desc.describes(
                    self@.genomes[id],
                ) && health == self@.states[id].health,
            },
    {
        let index = self.get_index(x, y);
        match self.entities[index] {
            Entity::Nothing => EntityProjection::Nothing,
            Entity::Corpse(_) => EntityProjection::Corpse,
            Entity::Cell(genome_id) => {
                proof {
                    assert(self@.cell_at_index(index as int));
                    assert(self.genomes.genomes@.contains_key(genome_id));
                }
                let health = self.get_state(genome_id).health;
                let desc = *self.genomes.describe(genome_id).unwrap();
                EntityProjection::Cell { desc, health }
            },
        }
    }
}

} // verus!
