use vstd::arithmetic::div_mod::lemma_fundamental_div_mod;
use vstd::prelude::*;

use crate::chance::{random_below, random_ratio};
use crate::direction::Direction;
use crate::entity::Entity;
use crate::genes::{Coords, Gene, GENOME_LENGTH, KNOWN_GENES, PHOTOSYNTHESIS, SENSE, TURN};
use crate::genome::{Genome, GenomeIds};
use crate::model::{lemma_grown_wf, lemma_index_in_grid, lemma_next_id_free, WorldView};
use crate::settings::Settings;
use crate::world::World;

verus! {

/// A random genome under a fresh identity: known genes drawn one after the
/// other, a sense gene followed by two random operands and a turn gene by
/// one. Every gene lies below `GENOME_LENGTH`, and the last two positions
/// stay photosynthesis.
pub fn create_random_entity(ids: &mut GenomeIds) -> (r: Genome)
    requires
        old(ids).can_allocate(),
    ensures
        r.id == old(ids).next,
        final(ids).next == old(ids).next + 1,
        forall|j: int| 0 <= j < GENOME_LENGTH ==> #[trigger] r.genes@[j] < GENOME_LENGTH,
        r.genes@[GENOME_LENGTH - 2] == PHOTOSYNTHESIS,
        r.genes@[GENOME_LENGTH - 1] == PHOTOSYNTHESIS,
{
    let mut genome = Genome::new_plant(ids);
    let mut i: usize = 0;
    while i < GENOME_LENGTH - 4
        invariant
            i <= GENOME_LENGTH - 2,
            genome.id == old(ids).next,
            genome.genes@.len() == GENOME_LENGTH,
            forall|j: int| 0 <= j < GENOME_LENGTH ==> #[trigger] genome.genes@[j] < GENOME_LENGTH,
            genome.genes@[GENOME_LENGTH - 2] == PHOTOSYNTHESIS,
            genome.genes@[GENOME_LENGTH - 1] == PHOTOSYNTHESIS,
        decreases GENOME_LENGTH - i,
    {
        let index = random_below(KNOWN_GENES.len());
        let gene: Gene = KNOWN_GENES[index];
        assert(gene < GENOME_LENGTH);
        genome.mutate(i, gene);
        i = i + 1;
        if gene == SENSE {
            let first = random_below(GENOME_LENGTH);
            genome.mutate(i, first);
            i = i + 1;
            let second = random_below(GENOME_LENGTH);
            genome.mutate(i, second);
            i = i + 1;
        }
        if gene == TURN {
            let amount = random_below(GENOME_LENGTH);
            genome.mutate(i, amount);
            i = i + 1;
        }
    }
    genome
}

/// A fresh world in which each cell, with chance one in three, holds a
/// random organism facing a random direction, and is empty otherwise.
pub fn build_new_world(width: Coords, height: Coords, settings: Settings) -> (r: World)
    requires
        0 < width,
        0 < height,
        width * height <= i32::MAX,
    ensures
        r.wf(),
        r.width == width,
        r.height == height,
        r.settings == settings,
        forall|i: int| 0 <= i < r@.entities.len() ==> !(#[trigger] r@.entities[i] is Corpse),
{
    let mut world = World::new(width, height, settings);
    let size = world.entities.len();
    let rows = height as usize;
    let mut k: usize = 0;
    while k < size
        invariant
            world.wf(),
            world.width == width,
            world.height == height,
            world.settings == settings,
            rows as int == height,
            size == world@.entities.len(),
            size == width * height,
            k <= size,
            world.ids.next <= 1 + k,
            forall|i: int| 0 <= i < world@.entities.len() ==> !(#[trigger] world@.entities[i] is Corpse),
        decreases size - k,
    {
        proof {
            let h = height as int;
            let w = width as int;
            let kk = k as int;
            lemma_fundamental_div_mod(kk, h);
            assert(kk / h < w) by (nonlinear_arith)
                requires
                    kk == h * (kk / h) + kk % h,
                    0 <= kk % h,
                    0 <= kk < w * h,
                    0 < h,
            ;
            assert(0 <= kk / h) by (nonlinear_arith)
                requires
                    0 <= kk,
                    0 < h,
            ;
        }
        let x = (k / rows) as i32;
        let y = (k % rows) as i32;
        let ghost before = world@;
        proof {
            lemma_index_in_grid(before, x as int, y as int);
        }
        if random_ratio(1, 3) {
            proof {
                lemma_next_id_free(world@);
            }
            let genome = create_random_entity(&mut world.ids);
            assert(world@.entities == before.entities);
            proof {
                lemma_grown_wf(before);
                assert(world@.genomes == before.genomes);
                assert(world@ == (WorldView { next_id: (before.next_id + 1) as u64, ..before }));
            }
            assert forall|i: int| 0 <= i < world@.entities.len() implies #[trigger] world@.entities[i]
                != Entity::Cell(genome.id) by {
                assert(before.entities[i] != Entity::Cell(before.next_id));
            }
            let direction = Direction::by_value(random_below(8));
            world.set_cell_ext(x, y, genome, direction);
        } else {
            world.set_nothing(x, y);
        }
        proof {
            let idx = before.index_of(x as int, y as int);
            assert forall|i: int| 0 <= i < world@.entities.len() implies !(#[trigger] world@.entities[i] is Corpse) by {
                if i != idx {
                    assert(world@.entities[i] == before.entities[i]);
                }
            }
        }
        k = k + 1;
    }
    world
}

} // verus!
