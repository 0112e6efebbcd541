use vstd::arithmetic::div_mod::{lemma_mod_multiples_vanish, lemma_mod_twice};
use vstd::prelude::*;

use crate::cell_state::CellState;
use crate::chance::ChildDraw;
use crate::direction::{dir_at, rotated, shift_of};
use crate::entity::Entity;
use crate::genes::{
    Gene, GenomeId, ATTACK, DEFILE, GENOME_LENGTH, MOVE, REPRODUCE, SENSE, TURN,
};
use crate::settings::Settings;

verus! {

/// `c` wrapped into `[0, dim)`.
pub open spec fn wrap(c: int, dim: int) -> int {
    c % dim
}

/// `c + d` when that is a valid coordinate, else `c` wrapped and then moved
/// by `d`; both name the same cell of a torus of size `dim`.
pub open spec fn step(c: int, d: int, dim: int) -> int {
    if i32::MIN <= c + d <= i32::MAX {
        c + d
    } else {
        wrap(c, dim) + d
    }
}

/// The `k`-th neighbour offset, scanning the surrounding 3x3 block row by
/// row from its top-left corner and skipping the centre.
pub open spec fn neighbor_offset(k: int) -> (int, int) {
    if k == 0 {
        (-1, -1)
    } else if k == 1 {
        (0, -1)
    } else if k == 2 {
        (1, -1)
    } else if k == 3 {
        (-1, 0)
    } else if k == 4 {
        (1, 0)
    } else if k == 5 {
        (-1, 1)
    } else if k == 6 {
        (0, 1)
    } else {
        (1, 1)
    }
}

/// `v` capped at the largest health.
pub open spec fn capped(v: int) -> i32 {
    if v > i32::MAX {
        i32::MAX
    } else {
        v as i32
    }
}

/// `-d`, with the one value that has no negation mapped to the largest one.
pub open spec fn negated(d: i32) -> i32 {
    if d == i32::MIN {
        i32::MAX
    } else {
        (-d) as i32
    }
}

/// How much of a corpse with remains `v` one bite of `damage` takes: never
/// less than nothing, never more than there is.
pub open spec fn eaten_from(v: i32, damage: i32) -> i32 {
    if damage <= 0 || v <= 0 {
        0
    } else if damage < v {
        damage
    } else {
        v
    }
}

/// The counter after an identity has been placed: above every placed
/// identity, unless it reached the largest one.
pub open spec fn bumped(next: GenomeId, id: GenomeId) -> GenomeId {
    if id < next {
        next
    } else if id < u64::MAX {
        (id + 1) as u64
    } else {
        u64::MAX
    }
}

/// The health delta charged for executing `gene`.
pub open spec fn cost_of(s: Settings, gene: Gene) -> i32 {
    if gene == SENSE {
        s.sense_cost
    } else if gene == TURN {
        s.turn_cost
    } else if gene == MOVE {
        s.move_cost
    } else if gene == ATTACK {
        s.attack_cost
    } else if gene == REPRODUCE {
        s.reproduce_cost
    } else if gene == DEFILE {
        s.defile_cost
    } else {
        0
    }
}

/// The genes of a child of `parent` under the outcome `d`: one gene is
/// overwritten when `d` mutates.
pub open spec fn child_genes(parent: Seq<Gene>, d: ChildDraw) -> Seq<Gene> {
    if d.mutate && d.index < parent.len() {
        parent.update(d.index as int, d.gene)
    } else {
        parent
    }
}

/// The abstract state of a world.
pub ghost struct WorldView {
    pub width: int,
    pub height: int,
    pub settings: Settings,
    /// Occupants, row by row.
    pub entities: Seq<Entity>,
    /// Genes of every stored genome.
    pub genomes: Map<GenomeId, Seq<Gene>>,
    /// State of every stored organism.
    pub states: Map<GenomeId, CellState>,
    /// The identity the next child receives.
    pub next_id: GenomeId,
}

impl WorldView {
    /// Whether the `i`-th occupant is a living organism.
    pub open spec fn cell_at_index(self, i: int) -> bool {
        self.entities[i] is Cell
    }

    /// The grid's shape holds, every living organism has its genes and its
    /// state stored under its identity, identities are held once and lie
    /// below the next child's.
    pub open spec fn wf(self) -> bool {
        &&& 0 < self.width
        &&& 0 < self.height
        &&& self.width * self.height <= i32::MAX
        &&& self.entities.len() == self.width * self.height
        &&& forall|i: int|
            0 <= i < self.entities.len() && #[trigger] self.cell_at_index(i) ==> {
                let id = self.entities[i]->Cell_0;
                &&& self.genomes.contains_key(id)
                &&& self.genomes[id].len() == GENOME_LENGTH
                &&& self.states.contains_key(id)
                &&& (id < self.next_id || self.next_id == u64::MAX)
            }
        &&& forall|i: int, j: int|
            0 <= i < self.entities.len() && 0 <= j < self.entities.len() && i != j
                && #[trigger] self.cell_at_index(i) && #[trigger] self.cell_at_index(j)
                ==> self.entities[i]->Cell_0 != self.entities[j]->Cell_0
    }

    /// Position in the row-major grid of the cell at `(x, y)` on the torus.
    pub open spec fn index_of(self, x: int, y: int) -> int {
        wrap(y, self.height) * self.width + wrap(x, self.width)
    }

    /// The occupant of `(x, y)`.
    pub open spec fn entity_at(self, x: int, y: int) -> Entity {
        self.entities[self.index_of(x, y)]
    }

    /// Whether `entity` may be put at `(x, y)`: a living organism comes with
    /// a full gene tape and a state, and its identity is held nowhere else.
    pub open spec fn may_place(
        self,
        x: int,
        y: int,
        entity: Entity,
        genome: Option<Seq<Gene>>,
        state: Option<CellState>,
    ) -> bool {
        match entity {
            Entity::Cell(id) => {
                &&& genome is Some
                &&& genome->0.len() == GENOME_LENGTH
                &&& state is Some
                &&& forall|i: int|
                    0 <= i < self.entities.len() && i != self.index_of(x, y)
                        ==> #[trigger] self.entities[i] != Entity::Cell(id)
            },
            _ => true,
        }
    }

    /// `entity` put at `(x, y)`: the previous occupant's genes and state are
    /// forgotten, a new organism's are stored.
    pub open spec fn place(
        self,
        x: int,
        y: int,
        entity: Entity,
        genome: Option<Seq<Gene>>,
        state: Option<CellState>,
    ) -> WorldView {
        let i = self.index_of(x, y);
        let genomes = match self.entities[i] {
            Entity::Cell(old) => self.genomes.remove(old),
            _ => self.genomes,
        };
        let states = match self.entities[i] {
            Entity::Cell(old) => self.states.remove(old),
            _ => self.states,
        };
        match entity {
            Entity::Cell(id) => WorldView {
                entities: self.entities.update(i, entity),
                genomes: genomes.insert(id, genome->0),
                states: states.insert(id, state->0),
                next_id: bumped(self.next_id, id),
                ..self
            },
            _ => WorldView { entities: self.entities.update(i, entity), genomes, states, ..self },
        }
    }

    /// The coordinates that the organism at `(x, y)` faces; none when no
    /// organism is there.
    pub open spec fn facing(self, x: int, y: int) -> Option<(int, int)> {
        match self.entity_at(x, y) {
            Entity::Cell(id) => {
                let d = shift_of(self.states[id].direction);
                Some((step(x, d.0, self.width), step(y, d.1, self.height)))
            },
            _ => None,
        }
    }

    /// Adds `delta` to the health of the organism at `(x, y)`, capped at the
    /// largest health. An organism left below zero dies and becomes a fresh
    /// corpse. The second component is what the change took from it: its
    /// whole health when it died, else `-delta`; nothing when no organism is
    /// there.
    pub open spec fn health_update(self, x: int, y: int, delta: i32) -> (WorldView, i32) {
        match self.entity_at(x, y) {
            Entity::Cell(id) => {
                let st = self.states[id];
                let sum = st.health + delta;
                if sum < 0 {
                    (
                        self.place(x, y, Entity::Corpse(self.settings.corpse_initial), None, None),
                        st.health,
                    )
                } else {
                    (
                        WorldView {
                            states: self.states.insert(
                                id,
                                CellState { health: capped(sum), direction: st.direction },
                            ),
                            ..self
                        },
                        (-delta) as i32,
                    )
                }
            },
            _ => (self, 0),
        }
    }

    /// Charges the organism at `(x, y)` the cost of executing `gene`.
    pub open spec fn charge(self, x: int, y: int, gene: Gene) -> WorldView {
        self.health_update(x, y, cost_of(self.settings, gene)).0
    }

    /// The organism at `(x, y)` steps to the cell it faces, if that is empty.
    pub open spec fn moved(self, x: int, y: int) -> WorldView {
        match self.entity_at(x, y) {
            Entity::Cell(id) => match self.facing(x, y) {
                Some(t) => if self.entity_at(t.0, t.1) is Nothing {
                    WorldView {
                        entities: self.entities.update(self.index_of(t.0, t.1), Entity::Cell(id)).update(
                            self.index_of(x, y),
                            Entity::Nothing,
                        ),
                        ..self
                    }
                } else {
                    self
                },
                None => self,
            },
            _ => self,
        }
    }

    /// The organism at `(x, y)` turns clockwise by `value` steps.
    pub open spec fn turned(self, x: int, y: int, value: int) -> WorldView {
        match self.entity_at(x, y) {
            Entity::Cell(id) => {
                let st = self.states[id];
                WorldView {
                    states: self.states.insert(
                        id,
                        CellState { health: st.health, direction: rotated(st.direction, value) },
                    ),
                    ..self
                }
            },
            _ => self,
        }
    }

    /// The organism at `(x, y)` bites what it faces for `damage` and gains
    /// what the bite took.
    pub open spec fn attacked(self, x: int, y: int, damage: i32) -> WorldView {
        match self.facing(x, y) {
            Some(t) => {
                let bite = self.health_update(t.0, t.1, negated(damage));
                bite.0.health_update(x, y, bite.1).0
            },
            None => self,
        }
    }

    /// The organism at `(x, y)` eats up to `damage` of the corpse it faces;
    /// a corpse with nothing left disappears.
    pub open spec fn defiled(self, x: int, y: int, damage: i32) -> WorldView {
        match self.facing(x, y) {
            Some(t) => match self.entity_at(t.0, t.1) {
                Entity::Corpse(v) => {
                    let taken = eaten_from(v, damage);
                    let rest = v - taken;
                    let eaten = if rest <= 0 {
                        self.place(t.0, t.1, Entity::Nothing, None, None)
                    } else {
                        self.place(t.0, t.1, Entity::Corpse(rest as i32), None, None)
                    };
                    eaten.health_update(x, y, taken).0
                },
                _ => self,
            },
            None => self,
        }
    }

    /// The corpse at `(x, y)` shrinks by `amount`; at zero or below it
    /// disappears.
    pub open spec fn decayed(self, x: int, y: int, amount: i32) -> WorldView {
        match self.entity_at(x, y) {
            Entity::Corpse(v) => {
                let rest = v - amount;
                if rest <= 0 {
                    self.place(x, y, Entity::Nothing, None, None)
                } else {
                    self.place(x, y, Entity::Corpse(capped(rest)), None, None)
                }
            },
            _ => self,
        }
    }

    /// Whatever is at `(x, y)` becomes a fresh corpse.
    pub open spec fn killed(self, x: int, y: int) -> WorldView {
        self.place(x, y, Entity::Corpse(self.settings.corpse_initial), None, None)
    }

    /// The organism at `(x, y)` puts a child on the cell it faces, unless a
    /// living organism is there or identities ran out. The child takes the
    /// next identity, the parent's genes as the outcome `d` mutates them, the
    /// initial health, and the direction that `d` drew.
    pub open spec fn reproduced(self, x: int, y: int, d: ChildDraw) -> WorldView {
        match self.entity_at(x, y) {
            Entity::Cell(parent) => if self.next_id == u64::MAX {
                self
            } else {
                match self.facing(x, y) {
                    Some(t) => if self.entity_at(t.0, t.1) is Cell {
                        self
                    } else {
                        let grown = WorldView { next_id: (self.next_id + 1) as u64, ..self };
                        grown.place(
                            t.0,
                            t.1,
                            Entity::Cell(self.next_id),
                            Some(child_genes(self.genomes[parent], d)),
                            Some(
                                CellState {
                                    health: self.settings.initial_cell_health,
                                    direction: dir_at(d.direction as int),
                                },
                            ),
                        )
                    },
                    None => self,
                }
            },
            _ => self,
        }
    }

    /// The first neighbour of `(x, y)`, from the `k`-th on in scan order,
    /// that holds a living organism (`living`) or is empty (`!living`).
    pub open spec fn scan(self, x: int, y: int, k: int, living: bool) -> Option<(int, int)>
        decreases 8 - k,
    {
        if k < 0 || k >= 8 {
            None
        } else {
            let off = neighbor_offset(k);
            let p = (step(x, off.0, self.width), step(y, off.1, self.height));
            let e = self.entity_at(p.0, p.1);
            if (living && e is Cell) || (!living && e is Nothing) {
                Some(p)
            } else {
                self.scan(x, y, k + 1, living)
            }
        }
    }
}

/// Every coordinate pair indexes the grid.
pub proof fn lemma_index_in_grid(v: WorldView, x: int, y: int)
    requires
        0 < v.width,
        0 < v.height,
    ensures
        0 <= v.index_of(x, y) < v.width * v.height,
{
    let a = wrap(y, v.height);
    let b = wrap(x, v.width);
    let w = v.width;
    let h = v.height;
    assert(0 <= a * w + b < w * h) by (nonlinear_arith)
        requires
            0 <= a < h,
            0 <= b < w,
    ;
}

/// Putting an entity where `may_place` allows keeps the world well formed.
pub proof fn lemma_place_wf(
    v: WorldView,
    x: int,
    y: int,
    entity: Entity,
    genome: Option<Seq<Gene>>,
    state: Option<CellState>,
)
    requires
        v.wf(),
        v.may_place(x, y, entity, genome, state),
    ensures
        v.place(x, y, entity, genome, state).wf(),
{
    lemma_index_in_grid(v, x, y);
    let i = v.index_of(x, y);
    let r = v.place(x, y, entity, genome, state);
    assert forall|j: int| 0 <= j < r.entities.len() && #[trigger] r.cell_at_index(j) implies {
        let id = r.entities[j]->Cell_0;
        &&& r.genomes.contains_key(id)
        &&& r.genomes[id].len() == GENOME_LENGTH
        &&& r.states.contains_key(id)
        &&& (id < r.next_id || r.next_id == u64::MAX)
    } by {
        if j != i {
            assert(v.cell_at_index(j));
            if v.entities[i] is Cell {
                assert(v.cell_at_index(i));
            }
        }
    }
    assert forall|j: int, k: int|
        0 <= j < r.entities.len() && 0 <= k < r.entities.len() && j != k
            && #[trigger] r.cell_at_index(j) && #[trigger] r.cell_at_index(k)
            implies r.entities[j]->Cell_0 != r.entities[k]->Cell_0 by {
        if j != i && k != i {
            assert(v.cell_at_index(j) && v.cell_at_index(k));
        } else if j == i {
            assert(v.entities[k] != entity);
        } else {
            assert(v.entities[j] != entity);
        }
    }
}

/// Changing the health of an organism keeps the world well formed.
pub proof fn lemma_health_update_wf(v: WorldView, x: int, y: int, delta: i32)
    requires
        v.wf(),
    ensures
        v.health_update(x, y, delta).0.wf(),
{
    lemma_index_in_grid(v, x, y);
    if v.entity_at(x, y) is Cell {
        assert(v.cell_at_index(v.index_of(x, y)));
        let st = v.states[v.entity_at(x, y)->Cell_0];
        if st.health + delta < 0 {
            lemma_place_wf(v, x, y, Entity::Corpse(v.settings.corpse_initial), None, None);
        } else {
            let r = v.health_update(x, y, delta).0;
            assert forall|j: int| 0 <= j < r.entities.len() && #[trigger] r.cell_at_index(j) implies {
                let id = r.entities[j]->Cell_0;
                &&& r.genomes.contains_key(id)
                &&& r.genomes[id].len() == GENOME_LENGTH
                &&& r.states.contains_key(id)
                &&& (id < r.next_id || r.next_id == u64::MAX)
            } by {
                assert(v.cell_at_index(j));
            }
            assert forall|j: int, m: int|
                0 <= j < r.entities.len() && 0 <= m < r.entities.len() && j != m
                    && #[trigger] r.cell_at_index(j) && #[trigger] r.cell_at_index(m)
                    implies r.entities[j]->Cell_0 != r.entities[m]->Cell_0 by {
                assert(v.cell_at_index(j) && v.cell_at_index(m));
            }
        }
    }
}

/// Turning an organism keeps the world well formed.
pub proof fn lemma_turned_wf(v: WorldView, x: int, y: int, value: int)
    requires
        v.wf(),
    ensures
        v.turned(x, y, value).wf(),
{
    lemma_index_in_grid(v, x, y);
    if v.entity_at(x, y) is Cell {
        assert(v.cell_at_index(v.index_of(x, y)));
    }
    let r = v.turned(x, y, value);
    assert forall|j: int| 0 <= j < r.entities.len() && #[trigger] r.cell_at_index(j) implies {
        let id = r.entities[j]->Cell_0;
        &&& r.genomes.contains_key(id)
        &&& r.genomes[id].len() == GENOME_LENGTH
        &&& r.states.contains_key(id)
        &&& (id < r.next_id || r.next_id == u64::MAX)
    } by {
        assert(v.cell_at_index(j));
    }
    assert forall|j: int, m: int|
        0 <= j < r.entities.len() && 0 <= m < r.entities.len() && j != m
            && #[trigger] r.cell_at_index(j) && #[trigger] r.cell_at_index(m)
            implies r.entities[j]->Cell_0 != r.entities[m]->Cell_0 by {
        assert(v.cell_at_index(j) && v.cell_at_index(m));
    }
}

/// Moving an organism keeps the world well formed.
pub proof fn lemma_moved_wf(v: WorldView, x: int, y: int)
    requires
        v.wf(),
    ensures
        v.moved(x, y).wf(),
{
    lemma_index_in_grid(v, x, y);
    if v.entity_at(x, y) is Cell && v.facing(x, y) is Some {
        let t = v.facing(x, y)->0;
        lemma_index_in_grid(v, t.0, t.1);
        if v.entity_at(t.0, t.1) is Nothing {
            let i = v.index_of(x, y);
            let k = v.index_of(t.0, t.1);
            let r = v.moved(x, y);
            assert(i != k);
            assert forall|j: int| 0 <= j < r.entities.len() && #[trigger] r.cell_at_index(j) implies {
                let id = r.entities[j]->Cell_0;
                &&& r.genomes.contains_key(id)
                &&& r.genomes[id].len() == GENOME_LENGTH
                &&& r.states.contains_key(id)
                &&& (id < r.next_id || r.next_id == u64::MAX)
            } by {
                if j == k {
                    assert(v.cell_at_index(i));
                } else {
                    assert(v.cell_at_index(j));
                }
            }
            assert forall|j: int, m: int|
                0 <= j < r.entities.len() && 0 <= m < r.entities.len() && j != m
                    && #[trigger] r.cell_at_index(j) && #[trigger] r.cell_at_index(m)
                    implies r.entities[j]->Cell_0 != r.entities[m]->Cell_0 by {
                let jj = if j == k { i } else { j };
                let mm = if m == k { i } else { m };
                assert(v.cell_at_index(jj) && v.cell_at_index(mm));
            }
        }
    }
}

/// A child put by `reproduced` keeps the world well formed.
pub proof fn lemma_reproduced_wf(v: WorldView, x: int, y: int, d: ChildDraw)
    requires
        v.wf(),
    ensures
        v.reproduced(x, y, d).wf(),
{
    lemma_index_in_grid(v, x, y);
    if v.entity_at(x, y) is Cell && v.next_id != u64::MAX && v.facing(x, y) is Some {
        let t = v.facing(x, y)->0;
        if !(v.entity_at(t.0, t.1) is Cell) {
            let parent = v.entity_at(x, y)->Cell_0;
            assert(v.cell_at_index(v.index_of(x, y)));
            let grown = WorldView { next_id: (v.next_id + 1) as u64, ..v };
            assert(grown.wf()) by {
                assert forall|j: int| 0 <= j < grown.entities.len() && #[trigger] grown.cell_at_index(j) implies {
                    let id = grown.entities[j]->Cell_0;
                    &&& grown.genomes.contains_key(id)
                    &&& grown.genomes[id].len() == GENOME_LENGTH
                    &&& grown.states.contains_key(id)
                    &&& (id < grown.next_id || grown.next_id == u64::MAX)
                } by {
                    assert(v.cell_at_index(j));
                }
                assert forall|j: int, m: int|
                    0 <= j < grown.entities.len() && 0 <= m < grown.entities.len() && j != m
                        && #[trigger] grown.cell_at_index(j) && #[trigger] grown.cell_at_index(m)
                        implies grown.entities[j]->Cell_0 != grown.entities[m]->Cell_0 by {
                    assert(v.cell_at_index(j) && v.cell_at_index(m));
                }
            }
            let genes = child_genes(v.genomes[parent], d);
            let st = CellState {
                health: v.settings.initial_cell_health,
                direction: dir_at(d.direction as int),
            };
            assert forall|i: int|
                0 <= i < grown.entities.len() && i != grown.index_of(t.0, t.1)
                    implies #[trigger] grown.entities[i] != Entity::Cell(v.next_id) by {
                if grown.entities[i] == Entity::Cell(v.next_id) {
                    assert(v.cell_at_index(i));
                }
            }
            lemma_place_wf(grown, t.0, t.1, Entity::Cell(v.next_id), Some(genes), Some(st));
        }
    }
}

/// Well-formedness does not depend on the settings.
pub proof fn lemma_settings_wf(v: WorldView, settings: Settings)
    requires
        v.wf(),
    ensures
        (WorldView { settings, ..v }).wf(),
{
    let r = WorldView { settings, ..v };
    assert forall|j: int| 0 <= j < r.entities.len() && #[trigger] r.cell_at_index(j) implies {
        let id = r.entities[j]->Cell_0;
        &&& r.genomes.contains_key(id)
        &&& r.genomes[id].len() == GENOME_LENGTH
        &&& r.states.contains_key(id)
        &&& (id < r.next_id || r.next_id == u64::MAX)
    } by {
        assert(v.cell_at_index(j));
    }
    assert forall|j: int, m: int|
        0 <= j < r.entities.len() && 0 <= m < r.entities.len() && j != m
            && #[trigger] r.cell_at_index(j) && #[trigger] r.cell_at_index(m)
            implies r.entities[j]->Cell_0 != r.entities[m]->Cell_0 by {
        assert(v.cell_at_index(j) && v.cell_at_index(m));
    }
}

/// Raising the next child's identity keeps the world well formed.
pub proof fn lemma_grown_wf(v: WorldView)
    requires
        v.wf(),
        v.next_id < u64::MAX,
    ensures
        (WorldView { next_id: (v.next_id + 1) as u64, ..v }).wf(),
{
    let r = WorldView { next_id: (v.next_id + 1) as u64, ..v };
    assert forall|j: int| 0 <= j < r.entities.len() && #[trigger] r.cell_at_index(j) implies {
        let id = r.entities[j]->Cell_0;
        &&& r.genomes.contains_key(id)
        &&& r.genomes[id].len() == GENOME_LENGTH
        &&& r.states.contains_key(id)
        &&& (id < r.next_id || r.next_id == u64::MAX)
    } by {
        assert(v.cell_at_index(j));
    }
    assert forall|j: int, m: int|
        0 <= j < r.entities.len() && 0 <= m < r.entities.len() && j != m
            && #[trigger] r.cell_at_index(j) && #[trigger] r.cell_at_index(m)
            implies r.entities[j]->Cell_0 != r.entities[m]->Cell_0 by {
        assert(v.cell_at_index(j) && v.cell_at_index(m));
    }
}

/// No living organism holds the next child's identity.
pub proof fn lemma_next_id_free(v: WorldView)
    requires
        v.wf(),
        v.next_id < u64::MAX,
    ensures
        forall|i: int| 0 <= i < v.entities.len() ==> #[trigger] v.entities[i] != Entity::Cell(v.next_id),
{
    assert forall|i: int| 0 <= i < v.entities.len() implies #[trigger] v.entities[i] != Entity::Cell(v.next_id) by {
        if v.entities[i] == Entity::Cell(v.next_id) {
            assert(v.cell_at_index(i));
        }
    }
}

/// Toroidal indexing: a coordinate names the same cell as itself wrapped
/// into the grid, and as itself moved by any multiple of the grid's size,
/// negative coordinates included.
pub proof fn lemma_toroidal_index(v: WorldView, x: int, y: int, k: int)
    requires
        0 < v.width,
        0 < v.height,
    ensures
        v.index_of(x, y) == v.index_of(x % v.width, y),
        v.index_of(x, y) == v.index_of(x, y % v.height),
        v.index_of(x + k * v.width, y) == v.index_of(x, y),
        v.index_of(x, y + k * v.height) == v.index_of(x, y),
{
    lemma_mod_twice(x, v.width);
    lemma_mod_twice(y, v.height);
    lemma_mod_multiples_vanish(k, x, v.width);
    lemma_mod_multiples_vanish(k, y, v.height);
    assert(x + k * v.width == v.width * k + x) by (nonlinear_arith);
    assert(y + k * v.height == v.height * k + y) by (nonlinear_arith);
}

/// Health clamping on a lethal update: an organism with health `h` hit by
/// `-h - 1` dies, leaves a corpse, and the update reports exactly `h`, not
/// `h + 1`. Hit by `-h + 5` instead, it survives with health 5 and the
/// update reports `h - 5`.
pub proof fn lemma_lethal_update(v: WorldView, x: int, y: int)
    requires
        v.wf(),
        v.entity_at(x, y) is Cell,
    ensures
        ({
            let h = v.states[v.entity_at(x, y)->Cell_0].health;
            let out = v.health_update(x, y, (-h - 1) as i32);
            &&& out.1 == h
            &&& out.0.entity_at(x, y) is Corpse
        }),
        ({
            let id = v.entity_at(x, y)->Cell_0;
            let h = v.states[id].health;
            let out = v.health_update(x, y, (5 - h) as i32);
            5 - h <= i32::MAX ==> {
                &&& out.1 == h - 5
                &&& out.0.entity_at(x, y) == Entity::Cell(id)
                &&& out.0.states[id].health == 5
            }
        }),
{
    lemma_index_in_grid(v, x, y);
}

/// Reproduction copies the parent: when mutation has no chance, a child put
/// next to its parent carries exactly the parent's genes, under an identity
/// other than the parent's, and the parent stays in place.
pub proof fn lemma_child_copies_parent(v: WorldView, x: int, y: int, d: ChildDraw)
    requires
        v.wf(),
        v.settings.mutation_probability == 0,
        d.valid(v.settings),
        v.entity_at(x, y) is Cell,
        v.next_id < u64::MAX,
        v.facing(x, y) matches Some(t) && !(v.entity_at(t.0, t.1) is Cell),
    ensures
        ({
            let parent = v.entity_at(x, y)->Cell_0;
            let t = v.facing(x, y)->0;
            let r = v.reproduced(x, y, d);
            &&& r.entity_at(t.0, t.1) is Cell
            &&& r.entity_at(t.0, t.1)->Cell_0 != parent
            &&& r.entity_at(x, y) == Entity::Cell(parent)
            &&& r.genomes[r.entity_at(t.0, t.1)->Cell_0] == r.genomes[parent]
        }),
{
    lemma_index_in_grid(v, x, y);
    let t = v.facing(x, y)->0;
    lemma_index_in_grid(v, t.0, t.1);
    assert(v.cell_at_index(v.index_of(x, y)));
    assert(v.index_of(x, y) != v.index_of(t.0, t.1));
}

} // verus!
