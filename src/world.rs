use vstd::arithmetic::div_mod::{lemma_fundamental_div_mod, lemma_fundamental_div_mod_converse_mod};
use vstd::prelude::*;

use crate::cell_state::{CellState, CellStateStorage};
use crate::chance::ChildDraw;
use crate::direction::Direction;
use crate::entity::Entity;
use crate::genes::{
    Coords, Gene, GeneIndex, GenomeId, HealthType, ATTACK, DEFILE, GENOME_LENGTH, MOVE, REPRODUCE, SENSE,
    TURN,
};
use crate::genome::{Genome, GenomeIds};
use crate::action::{draws_valid, effects, Action};
use crate::genome_storage::GenomeStorage;
use crate::processor::{processing, Processor};
use crate::model::{
    child_genes, cost_of, lemma_grown_wf, lemma_health_update_wf, lemma_index_in_grid,
    lemma_moved_wf, lemma_next_id_free, lemma_place_wf, lemma_reproduced_wf, lemma_settings_wf,
    lemma_turned_wf, neighbor_offset, step, wrap, WorldView,
};
use crate::settings::Settings;

verus! {

broadcast use vstd::std_specs::hash::group_hash_axioms;

/// The grid and everything living on it.
pub struct World {
    pub width: Coords,
    pub height: Coords,
    pub settings: Settings,
    /// Occupants, row by row.
    pub entities: Vec<Entity>,
    pub genomes: GenomeStorage,
    pub cell_states: CellStateStorage,
    /// Source of the identities given to children.
    pub ids: GenomeIds,
}

/// The genes of an optional genome.
pub open spec fn genes_of(genome: Option<Genome>) -> Option<Seq<Gene>> {
    match genome {
        Some(g) => Some(g.genes@),
        None => None,
    }
}

/// The empty world of the given shape.
pub open spec fn empty_world(width: int, height: int, settings: Settings) -> WorldView {
    WorldView {
        width,
        height,
        settings,
        entities: Seq::new((width * height) as nat, |i: int| Entity::Nothing),
        genomes: Map::empty(),
        states: Map::empty(),
        next_id: 1,
    }
}

/// The actions that the first `k` cells, in row-major order, yield against
/// the unchanged world `w`, and the interpreter positions afterwards.
pub open spec fn collected(
    w: WorldView,
    cursors: Map<GenomeId, GeneIndex>,
    k: int,
) -> (Seq<Action>, Map<GenomeId, GeneIndex>)
    decreases k,
{
    if k <= 0 {
        (seq![], cursors)
    } else {
        let before = collected(w, cursors, k - 1);
        let out = processing(
            w,
            before.1,
            w.settings,
            ((k - 1) % w.width) as i32,
            ((k - 1) / w.width) as i32,
            w.entities[k - 1],
        );
        (before.0 + out.0, out.1)
    }
}

/// The actions of one tick over the whole grid, and the interpreter
/// positions afterwards.
pub open spec fn tick_actions(w: WorldView, cursors: Map<GenomeId, GeneIndex>) -> (
    Seq<Action>,
    Map<GenomeId, GeneIndex>,
) {
    collected(w, cursors, w.width * w.height)
}

impl View for World {
    type V = WorldView;

    open spec fn view(&self) -> WorldView {
        WorldView {
            width: self.width as int,
            height: self.height as int,
            settings: self.settings,
            entities: self.entities@,
            genomes: self.genomes.genomes@.map_values(|g: Genome| g.genes@),
            states: self.cell_states.states@,
            next_id: self.ids.next,
        }
    }
}

/// A negative coordinate wraps to the distance of its magnitude from the
/// next multiple of the dimension.
proof fn lemma_wrap_negative(c: int, d: int)
    requires
        c < 0,
        0 < d,
    ensures
        wrap(c, d) == if (-c) % d == 0 {
            0
        } else {
            d - (-c) % d
        },
{
    let n = -c;
    let q = n / d;
    let r = n % d;
    lemma_fundamental_div_mod(n, d);
    if r == 0 {
        assert(c == (-q) * d + 0) by (nonlinear_arith)
            requires
                n == d * q + r,
                c == -n,
                r == 0,
        ;
        lemma_fundamental_div_mod_converse_mod(c, d, -q, 0);
    } else {
        assert(c == (-q - 1) * d + (d - r)) by (nonlinear_arith)
            requires
                n == d * q + r,
                c == -n,
        ;
        lemma_fundamental_div_mod_converse_mod(c, d, -q - 1, d - r);
    }
}

/// The neighbour offset at position `k` of the scan order.
fn neighbor_at(k: usize) -> (r: (Coords, Coords))
    requires
        k < 8,
    ensures
        (r.0 as int, r.1 as int) == neighbor_offset(k as int),
{
    if k == 0 {
        (-1, -1)
    } else if k == 1 {
        (0, -1)
    } else if k == 2 {
        (1, -1)
    } else if k == 3 {
        (-1, 0)
    } else if k == 4 {
        (1, 0)
    } else if k == 5 {
        (-1, 1)
    } else if k == 6 {
        (0, 1)
    } else {
        (1, 1)
    }
}

/// The health delta charged for executing `gene` under `settings`.
pub fn cost_for(settings: &Settings, gene: Gene) -> (r: HealthType)
    ensures
        r == cost_of(*settings, gene),
{
    if gene == SENSE {
        settings.sense_cost
    } else if gene == TURN {
        settings.turn_cost
    } else if gene == MOVE {
        settings.move_cost
    } else if gene == ATTACK {
        settings.attack_cost
    } else if gene == REPRODUCE {
        settings.reproduce_cost
    } else if gene == DEFILE {
        settings.defile_cost
    } else {
        0
    }
}

impl World {
    /// The abstract world is well formed and the genome storage keeps each
    /// genome under its own identity with a matching summary.
    pub open spec fn wf(&self) -> bool {
        &&& self@.wf()
        &&& self.genomes.wf()
    }

    /// An empty world of `width` by `height` cells with production settings.
    pub fn prod(width: Coords, height: Coords) -> (r: World)
        requires
            0 < width,
            0 < height,
            width * height <= i32::MAX,
        ensures
            r.wf(),
            r@ == empty_world(width as int, height as int, crate::settings::prod_settings()),
    {
        World::new(width, height, Settings::prod())
    }

    /// An empty world of `width` by `height` cells.
    pub fn new(width: Coords, height: Coords, settings: Settings) -> (r: World)
        requires
            0 < width,
            0 < height,
            width * height <= i32::MAX,
        ensures
            r.wf(),
            r@ == empty_world(width as int, height as int, settings),
    {
        let size = (width * height) as usize;
        let mut entities: Vec<Entity> = Vec::new();
        let mut i: usize = 0;
        while i < size
            invariant
                i <= size,
                entities@ == Seq::new(i as nat, |j: int| Entity::Nothing),
            decreases size - i,
        {
            entities.push(Entity::Nothing);
            i = i + 1;
            assert(entities@ =~= Seq::new(i as nat, |j: int| Entity::Nothing));
        }
        let r = World {
            width,
            height,
            settings,
            entities,
            genomes: GenomeStorage::new(),
            cell_states: CellStateStorage::new(),
            ids: GenomeIds::new(),
        };
        assert(r@.genomes =~= Map::empty());
        r
    }

    /// The settings of this world.
    pub fn get_settings(&self) -> (r: Settings)
        ensures
            r == self.settings,
    {
        self.settings
    }

    /// Replaces the settings of this world.
    pub fn update_settings(&mut self, settings: Settings)
        requires
            old(self).wf(),
        ensures
            final(self).wf(),
            final(self)@ == (WorldView { settings, ..old(self)@ }),
    {
        self.settings = settings;
        assert(self@.genomes =~= old(self)@.genomes);
        proof {
            lemma_settings_wf(old(self)@, settings);
        }
    }

    /// `coord` wrapped into `[0, dimension)`.
    pub fn normalize(coord: Coords, dimension: Coords) -> (r: Coords)
        requires
            0 < dimension,
        ensures
            r == wrap(coord as int, dimension as int),
            0 <= r < dimension,
    {
        if coord >= 0 {
            ((coord as u32) % (dimension as u32)) as i32
        } else {
            let m = ((0i64 - coord as i64) as u64 % dimension as u64) as i32;
            proof {
                lemma_wrap_negative(coord as int, dimension as int);
            }
            if m == 0 {
                0
            } else {
                dimension - m
            }
        }
    }

    /// Position in `entities` of the cell at `(x, y)`; every pair of
    /// coordinates names a cell of the torus.
    pub fn get_index(&self, x: Coords, y: Coords) -> (r: usize)
        requires
            self.wf(),
        ensures
            r as int == self@.index_of(x as int, y as int),
            r < self.entities.len(),
    {
        let x2 = World::normalize(x, self.width);
        let y2 = World::normalize(y, self.height);
        proof {
            lemma_index_in_grid(self@, x as int, y as int);
        }
        (y2 as usize) * (self.width as usize) + (x2 as usize)
    }

    /// `c` moved by `d` on a torus of size `dim`, as `step` states.
    fn step_coord(c: Coords, d: Coords, dim: Coords) -> (r: Coords)
        requires
            -1 <= d <= 1,
            0 < dim,
        ensures
            r as int == step(c as int, d as int, dim as int),
    {
        if (c as i64) + (d as i64) >= i32::MIN as i64 && (c as i64) + (d as i64) <= i32::MAX as i64 {
            c + d
        } else {
            World::normalize(c, dim) + d
        }
    }

    /// The occupant of `(x, y)`.
    pub fn get_entity(&self, x: Coords, y: Coords) -> (r: &Entity)
        requires
            self.wf(),
        ensures
            *r == self@.entity_at(x as int, y as int),
    {
        let index = self.get_index(x, y);
        &self.entities[index]
    }

    /// The state of the organism with identity `genome_id`, which must live.
    pub fn get_state(&self, genome_id: GenomeId) -> (r: &CellState)
        requires
            self@.states.contains_key(genome_id),
        ensures
            *r == self@.states[genome_id],
    {
        self.cell_states.get(genome_id)
    }

    /// The state of the organism at `(x, y)`; none when no organism is there.
    pub fn get_state_by_pos(&self, x: Coords, y: Coords) -> (r: Option<&CellState>)
        requires
            self.wf(),
        ensures
            match self@.entity_at(x as int, y as int) {
                Entity::Cell(id) => r == Some(&self@.states[id]),
                _ => r is None,
            },
    {
        let index = self.get_index(x, y);
        match self.entities[index] {
            Entity::Cell(genome_id) => {
                proof {
                    assert(self@.cell_at_index(index as int));
                }
                Some(self.cell_states.get(genome_id))
            },
            _ => None,
        }
    }

    /// The genome stored under `genome_id`, if any.
    pub fn get_genome(&self, genome_id: GenomeId) -> (r: Option<&Genome>)
        ensures
            match r {
                Some(g) => self@.genomes.contains_key(genome_id) && g.genes@ == self@.genomes[genome_id]
                    && *g == self.genomes.genomes@[genome_id],
                None => !self@.genomes.contains_key(genome_id),
            },
    {
        self.genomes.get(genome_id)
    }

    /// The coordinates that the organism at `(x, y)` faces: `(x, y)` moved
    /// one step in its direction. None when no organism is there.
    pub fn looking_at(&self, x: Coords, y: Coords) -> (r: Option<(Coords, Coords)>)
        requires
            self.wf(),
        ensures
            match self@.facing(x as int, y as int) {
                Some(t) => r matches Some(q) && q.0 as int == t.0 && q.1 as int == t.1,
                None => r is None,
            },
    {
        let index = self.get_index(x, y);
        match self.entities[index] {
            Entity::Cell(genome_id) => {
                proof {
                    assert(self@.cell_at_index(index as int));
                }
                let state = self.cell_states.get(genome_id);
                let (dx, dy) = state.direction.shift();
                Some(
                    (
                        World::step_coord(x, dx, self.width),
                        World::step_coord(y, dy, self.height),
                    ),
                )
            },
            _ => None,
        }
    }

    /// The first neighbour of `(x, y)` in scan order that holds a living
    /// organism (`living`) or is empty (`!living`).
    fn first_neighbor(&self, x: Coords, y: Coords, living: bool) -> (r: Option<(Coords, Coords)>)
        requires
            self.wf(),
        ensures
            match self@.scan(x as int, y as int, 0, living) {
                Some(p) => r matches Some(q) && q.0 as int == p.0 && q.1 as int == p.1,
                None => r is None,
            },
    {
        let mut k: usize = 0;
        while k < 8
            invariant
                self.wf(),
                k <= 8,
                self@.scan(x as int, y as int, 0, living) == self@.scan(x as int, y as int, k as int, living),
            decreases 8 - k,
        {
            let (dx, dy) = neighbor_at(k);
            let px = World::step_coord(x, dx, self.width);
            let py = World::step_coord(y, dy, self.height);
            let e = self.get_entity(px, py);
            let hit = match e {
                Entity::Cell(_) => living,
                Entity::Nothing => !living,
                Entity::Corpse(_) => false,
            };
            if hit {
                return Some((px, py));
            }
            k = k + 1;
        }
        None
    }

    /// The first empty neighbour of `(x, y)` in scan order: the row above
    /// from left to right, then left and right, then the row below.
    pub fn find_vacant_place_around(&self, x: Coords, y: Coords) -> (r: Option<(Coords, Coords)>)
        requires
            self.wf(),
        ensures
            match self@.scan(x as int, y as int, 0, false) {
                Some(p) => r matches Some(q) && q.0 as int == p.0 && q.1 as int == p.1,
                None => r is None,
            },
    {
        self.first_neighbor(x, y, false)
    }

    /// The first neighbour of `(x, y)` holding a living organism, in scan
    /// order: the row above from left to right, then left and right, then
    /// the row below.
    pub fn find_target_around(&self, x: Coords, y: Coords) -> (r: Option<(Coords, Coords)>)
        requires
            self.wf(),
        ensures
            match self@.scan(x as int, y as int, 0, true) {
                Some(p) => r matches Some(q) && q.0 as int == p.0 && q.1 as int == p.1,
                None => r is None,
            },
    {
        self.first_neighbor(x, y, true)
    }

    /// Puts `entity` at `(x, y)`. The previous occupant's genome and state
    /// are forgotten; a living organism comes with its genome, stored under
    /// its identity, and its state.
    pub fn set_entity(
        &mut self,
        x: Coords,
        y: Coords,
        entity: Entity,
        genome: Option<Genome>,
        initial_state: Option<CellState>,
    )
        requires
            old(self).wf(),
            old(self)@.may_place(x as int, y as int, entity, genes_of(genome), initial_state),
            entity matches Entity::Cell(id) ==> genome matches Some(g) && g.id == id,
        ensures
            final(self).wf(),
            final(self).settings == old(self).settings,
            final(self)@ == old(self)@.place(
                x as int,
                y as int,
                entity,
                genes_of(genome),
                initial_state,
            ),
    {
        let index = self.get_index(x, y);
        match self.entities[index] {
            Entity::Cell(old_id) => {
                self.genomes.remove(old_id);
                self.cell_states.remove(old_id);
            },
            _ => {},
        }
        match entity {
            Entity::Cell(id) => {
                match genome {
                    Some(g) => {
                        self.genomes.put(g);
                    },
                    None => {},
                }
                match initial_state {
                    Some(s) => {
                        self.cell_states.put(id, s);
                    },
                    None => {},
                }
                if id >= self.ids.next {
                    self.ids.next = if id < u64::MAX {
                        id + 1
                    } else {
                        u64::MAX
                    };
                }
            },
            _ => {},
        }
        self.entities.set(index, entity);
        proof {
            let target = old(self)@.place(x as int, y as int, entity, genes_of(genome), initial_state);
            assert(self@.genomes =~= target.genomes);
            assert(self@.states =~= target.states);
            assert(self@.entities =~= target.entities);
            lemma_place_wf(old(self)@, x as int, y as int, entity, genes_of(genome), initial_state);
        }
    }

    /// Empties `(x, y)`.
    pub fn set_nothing(&mut self, x: Coords, y: Coords)
        requires
            old(self).wf(),
        ensures
            final(self).wf(),
            final(self).settings == old(self).settings,
            final(self)@ == old(self)@.place(x as int, y as int, Entity::Nothing, None, None),
    {
        self.set_entity(x, y, Entity::Nothing, None, None);
    }

    /// Puts a corpse with remains `value` at `(x, y)`.
    pub fn set_corpse(&mut self, x: Coords, y: Coords, value: HealthType)
        requires
            old(self).wf(),
        ensures
            final(self).wf(),
            final(self).settings == old(self).settings,
            final(self)@ == old(self)@.place(x as int, y as int, Entity::Corpse(value), None, None),
    {
        self.set_entity(x, y, Entity::Corpse(value), None, None);
    }

    /// Puts a new organism with `genome` at `(x, y)`, facing north with the
    /// initial health. Its identity must not be held elsewhere.
    pub fn set_cell(&mut self, x: Coords, y: Coords, genome: Genome)
        requires
            old(self).wf(),
            forall|i: int|
                0 <= i < old(self)@.entities.len() && i != old(self)@.index_of(x as int, y as int)
                    ==> #[trigger] old(self)@.entities[i] != Entity::Cell(genome.id),
        ensures
            final(self).wf(),
            final(self).settings == old(self).settings,
            final(self)@ == old(self)@.place(
                x as int,
                y as int,
                Entity::Cell(genome.id),
                Some(genome.genes@),
                Some(CellState { health: old(self).settings.initial_cell_health, direction: Direction::North }),
            ),
    {
        self.set_cell_ext(x, y, genome, Direction::North);
    }

    /// Puts a new organism with `genome` at `(x, y)`, facing `direction`
    /// with the initial health. Its identity must not be held elsewhere.
    pub fn set_cell_ext(&mut self, x: Coords, y: Coords, genome: Genome, direction: Direction)
        requires
            old(self).wf(),
            forall|i: int|
                0 <= i < old(self)@.entities.len() && i != old(self)@.index_of(x as int, y as int)
                    ==> #[trigger] old(self)@.entities[i] != Entity::Cell(genome.id),
        ensures
            final(self).wf(),
            final(self).settings == old(self).settings,
            final(self)@ == old(self)@.place(
                x as int,
                y as int,
                Entity::Cell(genome.id),
                Some(genome.genes@),
                Some(CellState { health: old(self).settings.initial_cell_health, direction }),
            ),
    {
        let initial_health = self.settings.initial_cell_health;
        let id = genome.id();
        self.set_entity(
            x,
            y,
            Entity::Cell(id),
            Some(genome),
            Some(CellState::new(initial_health, direction)),
        );
    }

    /// Adds `health_delta` to the health of the organism at `(x, y)`, as
    /// `health_update` states, and returns what the change took from it:
    /// its whole health when it died, else `-health_delta`; 0 when no
    /// organism is there.
    pub fn update_health(&mut self, x: Coords, y: Coords, health_delta: HealthType) -> (r: HealthType)
        requires
            old(self).wf(),
        ensures
            final(self).wf(),
            final(self).settings == old(self).settings,
            (final(self)@, r) == old(self)@.health_update(x as int, y as int, health_delta),
    {
        proof {
            lemma_health_update_wf(self@, x as int, y as int, health_delta);
        }
        let index = self.get_index(x, y);
        match self.entities[index] {
            Entity::Cell(genome_id) => {
                proof {
                    assert(self@.cell_at_index(index as int));
                }
                let state = *self.cell_states.get(genome_id);
                let sum: i64 = state.health as i64 + health_delta as i64;
                if sum < 0 {
                    let corpse = self.settings.corpse_initial;
                    self.set_entity(x, y, Entity::Corpse(corpse), None, None);
                    state.health
                } else {
                    let health = if sum > i32::MAX as i64 {
                        i32::MAX
                    } else {
                        sum as i32
                    };
                    self.cell_states.put(genome_id, CellState { health, direction: state.direction });
                    proof {
                        assert(self@.genomes =~= old(self)@.genomes);
                    }
                    -health_delta
                }
            },
            _ => 0,
        }
    }

    /// Charges the organism at `(x, y)` the cost of executing `gene`.
    pub fn punish_for_action(&mut self, x: Coords, y: Coords, gene: Gene)
        requires
            old(self).wf(),
        ensures
            final(self).wf(),
            final(self).settings == old(self).settings,
            final(self)@ == old(self)@.charge(x as int, y as int, gene),
    {
        let cost = cost_for(&self.settings, gene);
        self.update_health(x, y, cost);
    }

    /// The organism at `(x, y)` steps to the cell it faces, if that is empty.
    pub fn move_cell(&mut self, x: Coords, y: Coords)
        requires
            old(self).wf(),
        ensures
            final(self).wf(),
            final(self).settings == old(self).settings,
            final(self)@ == old(self)@.moved(x as int, y as int),
    {
        proof {
            lemma_moved_wf(self@, x as int, y as int);
        }
        let old_index = self.get_index(x, y);
        match self.entities[old_index] {
            Entity::Cell(genome_id) => {
                match self.looking_at(x, y) {
                    Some((new_x, new_y)) => {
                        let new_index = self.get_index(new_x, new_y);
                        match self.entities[new_index] {
                            Entity::Nothing => {
                                self.entities.set(new_index, Entity::Cell(genome_id));
                                self.entities.set(old_index, Entity::Nothing);
                                proof {
                                    assert(self@.genomes =~= old(self)@.genomes);
                                    assert(self@.entities =~= old(self)@.moved(x as int, y as int).entities);
                                }
                            },
                            _ => {},
                        }
                    },
                    None => {},
                }
            },
            _ => {},
        }
    }

    /// The organism at `(x, y)` turns clockwise by `value` steps.
    pub fn rotate_cell(&mut self, x: Coords, y: Coords, value: Gene)
        requires
            old(self).wf(),
        ensures
            final(self).wf(),
            final(self).settings == old(self).settings,
            final(self)@ == old(self)@.turned(x as int, y as int, value as int),
    {
        proof {
            lemma_turned_wf(self@, x as int, y as int, value as int);
        }
        let index = self.get_index(x, y);
        match self.entities[index] {
            Entity::Cell(genome_id) => {
                proof {
                    assert(self@.cell_at_index(index as int));
                }
                let state = *self.cell_states.get(genome_id);
                let direction = state.direction.rotate(value);
                self.cell_states.put(genome_id, CellState { health: state.health, direction });
                proof {
                    assert(self@.genomes =~= old(self)@.genomes);
                }
            },
            _ => {},
        }
    }

    /// The organism at `(x, y)` bites what it faces for `damage` and gains
    /// what the bite took, which is never more than the victim had.
    pub fn attack(&mut self, x: Coords, y: Coords, damage: HealthType)
        requires
            old(self).wf(),
        ensures
            final(self).wf(),
            final(self).settings == old(self).settings,
            final(self)@ == old(self)@.attacked(x as int, y as int, damage),
    {
        match self.looking_at(x, y) {
            Some((target_x, target_y)) => {
                let bite = if damage == i32::MIN {
                    i32::MAX
                } else {
                    -damage
                };
                let eaten = self.update_health(target_x, target_y, bite);
                self.update_health(x, y, eaten);
            },
            None => {},
        }
    }

    /// The organism at `(x, y)` eats up to `damage` of the corpse it faces
    /// and gains what it ate; a corpse with nothing left disappears.
    pub fn defile(&mut self, x: Coords, y: Coords, damage: HealthType)
        requires
            old(self).wf(),
        ensures
            final(self).wf(),
            final(self).settings == old(self).settings,
            final(self)@ == old(self)@.defiled(x as int, y as int, damage),
    {
        match self.looking_at(x, y) {
            Some((target_x, target_y)) => {
                let target = self.get_index(target_x, target_y);
                match self.entities[target] {
                    Entity::Corpse(remains) => {
                        let taken = if damage <= 0 || remains <= 0 {
                            0
                        } else if damage < remains {
                            damage
                        } else {
                            remains
                        };
                        let rest = remains - taken;
                        if rest <= 0 {
                            self.set_entity(target_x, target_y, Entity::Nothing, None, None);
                        } else {
                            self.set_entity(target_x, target_y, Entity::Corpse(rest), None, None);
                        }
                        self.update_health(x, y, taken);
                    },
                    _ => {},
                }
            },
            None => {},
        }
    }

    /// The corpse at `(x, y)` shrinks by `decay`; at zero or below it
    /// disappears.
    pub fn decay(&mut self, x: Coords, y: Coords, decay: HealthType)
        requires
            old(self).wf(),
        ensures
            final(self).wf(),
            final(self).settings == old(self).settings,
            final(self)@ == old(self)@.decayed(x as int, y as int, decay),
    {
        let index = self.get_index(x, y);
        match self.entities[index] {
            Entity::Corpse(remains) => {
                let rest: i64 = remains as i64 - decay as i64;
                if rest <= 0 {
                    self.set_entity(x, y, Entity::Nothing, None, None);
                } else {
                    let value = if rest > i32::MAX as i64 {
                        i32::MAX
                    } else {
                        rest as i32
                    };
                    self.set_entity(x, y, Entity::Corpse(value), None, None);
                }
            },
            _ => {},
        }
    }

    /// Whatever is at `(x, y)` becomes a fresh corpse.
    pub fn kill(&mut self, x: Coords, y: Coords)
        requires
            old(self).wf(),
        ensures
            final(self).wf(),
            final(self).settings == old(self).settings,
            final(self)@ == old(self)@.killed(x as int, y as int),
    {
        let corpse = self.settings.corpse_initial;
        self.set_entity(x, y, Entity::Corpse(corpse), None, None);
    }

    /// A child genome of the genome stored under `parent_genome_id`: its
    /// genes, with one overwritten when `draw` mutates, under the next
    /// identity. None when no such genome is stored or identities ran out.
    pub fn build_child_genome_for(&mut self, parent_genome_id: GenomeId, draw: ChildDraw) -> (r: Option<Genome>)
        requires
            old(self).wf(),
        ensures
            final(self).wf(),
            final(self).settings == old(self).settings,
            match r {
                Some(g) => {
                    &&& old(self)@.genomes.contains_key(parent_genome_id)
                    &&& old(self)@.next_id < u64::MAX
                    &&& g.id == old(self)@.next_id
                    &&& g.genes@ == child_genes(old(self)@.genomes[parent_genome_id], draw)
                    &&& final(self)@ == (WorldView { next_id: (old(self)@.next_id + 1) as u64, ..old(self)@ })
                },
                None => {
                    &&& (!old(self)@.genomes.contains_key(parent_genome_id) || old(self)@.next_id == u64::MAX)
                    &&& final(self)@ == old(self)@
                },
            },
    {
        if self.ids.next == u64::MAX {
            return None;
        }
        match self.genomes.get(parent_genome_id) {
            Some(parent) => {
                let mut child = parent.clone(&mut self.ids);
                if draw.mutate && draw.index < GENOME_LENGTH {
                    child.mutate(draw.index, draw.gene);
                }
                proof {
                    lemma_grown_wf(old(self)@);
                    assert(self@.genomes =~= old(self)@.genomes);
                }
                Some(child)
            },
            None => None,
        }
    }

    /// The organism at `(x, y)` puts a child on the cell it faces, with the
    /// chance outcomes `draw`, as `reproduced` states: not onto a living
    /// organism, onto an empty cell or a corpse.
    pub fn reproduce_with(&mut self, x: Coords, y: Coords, draw: ChildDraw)
        requires
            old(self).wf(),
        ensures
            final(self).wf(),
            final(self).settings == old(self).settings,
            final(self)@ == old(self)@.reproduced(x as int, y as int, draw),
    {
        proof {
            lemma_reproduced_wf(self@, x as int, y as int, draw);
        }
        let index = self.get_index(x, y);
        match self.entities[index] {
            Entity::Cell(parent) => {
                if self.ids.next == u64::MAX {
                    return;
                }
                proof {
                    assert(self@.cell_at_index(index as int));
                }
                match self.looking_at(x, y) {
                    Some((target_x, target_y)) => {
                        let target = self.get_index(target_x, target_y);
                        match self.entities[target] {
                            Entity::Cell(_) => {},
                            _ => {
                                proof {
                                    lemma_next_id_free(self@);
                                }
                                match self.build_child_genome_for(parent, draw) {
                                    Some(child) => {
                                        let direction = Direction::by_value(draw.direction);
                                        self.set_cell_ext(target_x, target_y, child, direction);
                                    },
                                    None => {},
                                }
                            },
                        }
                    },
                    None => {},
                }
            },
            _ => {},
        }
    }

    /// The organism at `(x, y)` puts a child on the cell it faces, drawing
    /// the child's mutation and direction at random.
    pub fn reproduce(&mut self, x: Coords, y: Coords)
        requires
            old(self).wf(),
        ensures
            final(self).wf(),
            final(self).settings == old(self).settings,
            exists|d: ChildDraw|
                #[trigger] d.valid(old(self).settings) && final(self)@ == old(self)@.reproduced(
                    x as int,
                    y as int,
                    d,
                ),
    {
        let draw = ChildDraw::random(&self.settings);
        self.reproduce_with(x, y, draw);
    }

    /// Advances the world one generation. First every cell, row by row, is
    /// interpreted against the unchanged world and its actions collected;
    /// then the actions are applied in that order, each seeing what the
    /// earlier ones did.
    pub fn tick(&mut self, processor: &mut Processor)
        requires
            old(self).wf(),
            old(processor).wf(),
        ensures
            final(self).wf(),
            final(processor).wf(),
            final(self).settings == old(self).settings,
            final(processor)@ == tick_actions(old(self)@, old(processor)@).1,
            exists|draws: Seq<ChildDraw>|
                #[trigger] draws_valid(draws, old(self).settings) && draws.len() == tick_actions(
                    old(self)@,
                    old(processor)@,
                ).0.len() && final(self)@ == effects(
                    old(self)@,
                    tick_actions(old(self)@, old(processor)@).0,
                    draws,
                ),
    {
        let mut actions: Vec<Action> = Vec::new();
        let size = self.entities.len();
        let width = self.width as usize;
        let mut k: usize = 0;
        while k < size
            invariant
                self.wf(),
                self@ == old(self)@,
                self.settings == old(self).settings,
                size == self.entities@.len(),
                width as int == self.width,
                k <= size,
                processor.wf(),
                (actions@, processor@) == collected(self@, old(processor)@, k as int),
            decreases size - k,
        {
            proof {
                let w = self.width as int;
                let h = self.height as int;
                let kk = k as int;
                lemma_fundamental_div_mod(kk, w);
                assert(kk / w < h) by (nonlinear_arith)
                    requires
                        kk == w * (kk / w) + kk % w,
                        0 <= kk % w,
                        0 <= kk < w * h,
                        0 < w,
                ;
                assert(0 <= kk / w) by (nonlinear_arith)
                    requires
                        0 <= kk,
                        0 < w,
                ;
            }
            let x = (k % width) as i32;
            let y = (k / width) as i32;
            let entity = self.entities[k];
            let mut batch = processor.process_entity(x, y, entity, self, &self.settings);
            actions.append(&mut batch);
            k = k + 1;
        }
        processor.apply(&actions, self);
    }
}

} // verus!
