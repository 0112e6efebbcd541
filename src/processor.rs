use vstd::arithmetic::div_mod::{lemma_add_mod_noop, lemma_mod_twice};
use vstd::prelude::*;

use std::collections::HashMap;

use crate::action::{
    effects, draws_valid, Action, AttackAction, DefileAction, MoveAction, ReproduceAction,
    RotateAction, UpdateHealthAction,
};
use crate::chance::ChildDraw;
use crate::entity::Entity;
use crate::genes::{
    Coords, Gene, GeneIndex, GenomeId, ATTACK, DEFILE, GENOME_LENGTH, MOVE, PHOTOSYNTHESIS,
    REPRODUCE, SENSE, TURN,
};
use crate::model::WorldView;
use crate::settings::Settings;
use crate::world::World;

verus! {

broadcast use vstd::std_specs::hash::group_hash_axioms;

/// Where the interpreter resumes in one organism's genome.
#[derive(Clone, Copy, Debug, PartialEq, Eq, Structural)]
pub struct GenomeState {
    pub current_gene: GeneIndex,
}

/// The genome interpreter. It keeps, per genome identity, the position at
/// which the next tick resumes; an identity never seen resumes at 0.
pub struct Processor {
    pub genome_states: HashMap<GenomeId, GenomeState>,
}

impl View for Processor {
    type V = Map<GenomeId, GeneIndex>;

    open spec fn view(&self) -> Map<GenomeId, GeneIndex> {
        self.genome_states@.map_values(|s: GenomeState| s.current_gene)
    }
}

/// The position at which the genome `id` resumes.
pub open spec fn cursor_of(cursors: Map<GenomeId, GeneIndex>, id: GenomeId) -> int {
    if cursors.contains_key(id) {
        cursors[id] as int
    } else {
        0
    }
}

/// Every stored position lies inside the genome.
pub open spec fn cursors_wf(cursors: Map<GenomeId, GeneIndex>) -> bool {
    forall|id: GenomeId| #[trigger] cursors.contains_key(id) ==> cursors[id] < GENOME_LENGTH
}

/// A health update of `delta` for the organism at `(x, y)`.
pub open spec fn health_action(x: Coords, y: Coords, delta: i32) -> Action {
    Action::UpdateHealth(UpdateHealthAction { x, y, health_delta: delta })
}

/// What the organism at `(x, y)` faces: none when nothing is faced.
pub open spec fn faced_entity(w: WorldView, x: Coords, y: Coords) -> Option<Entity> {
    match w.facing(x as int, y as int) {
        Some(t) => Some(w.entity_at(t.0, t.1)),
        None => None,
    }
}

/// The actions of the gene at position `at` of `genes`, interpreted for the
/// organism `id` at `(x, y)`, and how far the position advances.
///
/// Photosynthesis gains health. Attack bites the faced cell when some
/// neighbour lives, and is charged its cost either way. Reproduction acts
/// only above the health threshold: it reproduces when some neighbour is
/// empty, and is charged its cost either way. Move steps forward. Turn reads
/// the following gene as the amount, modulo 8, and skips it. Sense is
/// charged its cost and skips one, two or three positions as the faced cell
/// is empty, living or a corpse. Defile bites a faced corpse, and is charged
/// its cost either way. Any other value does nothing.
pub open spec fn gene_outcome(
    w: WorldView,
    s: Settings,
    x: Coords,
    y: Coords,
    id: GenomeId,
    genes: Seq<Gene>,
    at: int,
) -> (Seq<Action>, int) {
    let gene = genes[at];
    if gene == PHOTOSYNTHESIS {
        (seq![health_action(x, y, s.photosynthesis_adds)], 1)
    } else if gene == ATTACK {
        if w.scan(x as int, y as int, 0, true) is Some {
            (seq![Action::Attack(AttackAction { x, y, damage: s.attack_damage })], 1)
        } else {
            (seq![health_action(x, y, s.attack_cost)], 1)
        }
    } else if gene == REPRODUCE {
        if w.states[id].health > s.reproduce_threshold {
            if w.scan(x as int, y as int, 0, false) is Some {
                (seq![Action::Reproduce(ReproduceAction { x, y })], 1)
            } else {
                (seq![health_action(x, y, s.reproduce_cost)], 1)
            }
        } else {
            (seq![], 1)
        }
    } else if gene == MOVE {
        (seq![Action::Move(MoveAction { x, y })], 1)
    } else if gene == TURN {
        (
            seq![
                Action::Rotate(
                    RotateAction { x, y, value: genes[(at + 1) % GENOME_LENGTH as int] % 8 },
                ),
            ],
            2,
        )
    } else if gene == SENSE {
        (
            seq![health_action(x, y, s.sense_cost)],
            match faced_entity(w, x, y) {
                Some(Entity::Cell(_)) => 2,
                Some(Entity::Corpse(_)) => 3,
                _ => 1,
            },
        )
    } else if gene == DEFILE {
        if faced_entity(w, x, y) matches Some(Entity::Corpse(_)) {
            (seq![Action::Defile(DefileAction { x, y, damage: s.defile_damage })], 1)
        } else {
            (seq![health_action(x, y, s.defile_cost)], 1)
        }
    } else {
        (seq![], 1)
    }
}

/// The actions of `steps` genes interpreted from position `start`, and the
/// position after them; positions wrap around the genome.
pub open spec fn run(
    w: WorldView,
    s: Settings,
    x: Coords,
    y: Coords,
    id: GenomeId,
    genes: Seq<Gene>,
    start: int,
    steps: nat,
) -> (Seq<Action>, int)
    decreases steps,
{
    if steps == 0 {
        (seq![], start)
    } else {
        let before = run(w, s, x, y, id, genes, start, (steps - 1) as nat);
        let out = gene_outcome(w, s, x, y, id, genes, before.1);
        (before.0 + out.0, (before.1 + out.1) % GENOME_LENGTH as int)
    }
}

/// The actions of the organism `id` at `(x, y)` for one tick, and the
/// positions afterwards: `steps_per_turn` genes from where it left off. An
/// identity whose genome or state is not stored yields nothing.
pub open spec fn execution(
    w: WorldView,
    cursors: Map<GenomeId, GeneIndex>,
    s: Settings,
    x: Coords,
    y: Coords,
    id: GenomeId,
) -> (Seq<Action>, Map<GenomeId, GeneIndex>) {
    if w.genomes.contains_key(id) && w.states.contains_key(id) {
        let out = run(w, s, x, y, id, w.genomes[id], cursor_of(cursors, id), s.steps_per_turn as nat);
        (out.0, cursors.insert(id, out.1 as usize))
    } else {
        (seq![], cursors)
    }
}

/// The actions of whatever occupies `(x, y)`: only living organisms act.
pub open spec fn processing(
    w: WorldView,
    cursors: Map<GenomeId, GeneIndex>,
    s: Settings,
    x: Coords,
    y: Coords,
    entity: Entity,
) -> (Seq<Action>, Map<GenomeId, GeneIndex>) {
    match entity {
        Entity::Cell(id) => execution(w, cursors, s, x, y, id),
        _ => (seq![], cursors),
    }
}

/// A position advanced by a step stays inside the genome.
proof fn lemma_run_in_range(
    w: WorldView,
    s: Settings,
    x: Coords,
    y: Coords,
    id: GenomeId,
    genes: Seq<Gene>,
    start: int,
    steps: nat,
)
    requires
        0 <= start < GENOME_LENGTH,
    ensures
        0 <= run(w, s, x, y, id, genes, start, steps).1 < GENOME_LENGTH,
    decreases steps,
{
    if steps > 0 {
        lemma_run_in_range(w, s, x, y, id, genes, start, (steps - 1) as nat);
    }
}

/// Cursor wraparound: when no gene of the genome skips (no turn and no
/// sense gene), interpreting `steps` genes from `start` ends at
/// `(start + steps) mod GENOME_LENGTH`, however often the window crosses
/// the end of the genome.
pub proof fn lemma_cursor_wraps(
    w: WorldView,
    s: Settings,
    x: Coords,
    y: Coords,
    id: GenomeId,
    genes: Seq<Gene>,
    start: int,
    steps: nat,
)
    requires
        genes.len() == GENOME_LENGTH,
        forall|i: int| 0 <= i < GENOME_LENGTH ==> #[trigger] genes[i] != TURN && genes[i] != SENSE,
        0 <= start < GENOME_LENGTH,
    ensures
        run(w, s, x, y, id, genes, start, steps).1 == (start + steps) % GENOME_LENGTH as int,
    decreases steps,
{
    if steps > 0 {
        lemma_cursor_wraps(w, s, x, y, id, genes, start, (steps - 1) as nat);
        lemma_run_in_range(w, s, x, y, id, genes, start, (steps - 1) as nat);
        let m = GENOME_LENGTH as int;
        let before = run(w, s, x, y, id, genes, start, (steps - 1) as nat).1;
        assert(genes[before] != TURN && genes[before] != SENSE);
        lemma_add_mod_noop(start + steps - 1, 1, m);
        lemma_mod_twice(start + steps - 1, m);
        assert(1int % m == 1);
    }
}

impl Processor {
    /// Every stored position lies inside the genome.
    pub open spec fn wf(&self) -> bool {
        cursors_wf(self@)
    }

    /// An interpreter that has seen no genome yet.
    pub fn new() -> (r: Processor)
        ensures
            r.wf(),
            r@ == Map::<GenomeId, GeneIndex>::empty(),
    {
        let r = Processor { genome_states: HashMap::new() };
        assert(r@ =~= Map::<GenomeId, GeneIndex>::empty());
        r
    }

    /// The state of genome `genome_id`, created at position 0 when first
    /// asked for.
    fn get_genome_state(&mut self, genome_id: GenomeId) -> (r: &mut GenomeState)
        requires
            old(self).wf(),
        ensures
            r.current_gene == cursor_of(old(self)@, genome_id),
            final(self).genome_states@ == old(self).genome_states@.insert(genome_id, *final(r)),
    {
        self.genome_states.entry(genome_id).or_insert(GenomeState { current_gene: 0 })
    }

    /// Where genome `genome_id` resumes; 0 for a genome never seen, which
    /// is then remembered at 0.
    pub fn get_genome_index(&mut self, genome_id: GenomeId) -> (r: GeneIndex)
        requires
            old(self).wf(),
        ensures
            r == cursor_of(old(self)@, genome_id),
            r < GENOME_LENGTH,
            final(self).wf(),
            final(self)@ == old(self)@.insert(genome_id, r),
    {
        let state = self.get_genome_state(genome_id);
        let r = state.current_gene;
        proof {
            assert(self@ =~= old(self)@.insert(genome_id, r));
        }
        r
    }

    /// Sets where genome `genome_id` resumes.
    pub fn update_genome_index(&mut self, genome_id: GenomeId, new_index: GeneIndex)
        requires
            old(self).wf(),
            new_index < GENOME_LENGTH,
        ensures
            final(self).wf(),
            final(self)@ == old(self)@.insert(genome_id, new_index),
    {
        let state = self.get_genome_state(genome_id);
        state.current_gene = new_index;
        proof {
            assert(self@ =~= old(self)@.insert(genome_id, new_index));
        }
    }

    /// The actions of whatever occupies `(x, y)`; only living organisms act.
    pub fn process_entity(
        &mut self,
        x: Coords,
        y: Coords,
        entity: Entity,
        perceptor: &World,
        settings: &Settings,
    ) -> (r: Vec<Action>)
        requires
            old(self).wf(),
            perceptor.wf(),
        ensures
            final(self).wf(),
            (r@, final(self)@) == processing(perceptor@, old(self)@, *settings, x, y, entity),
    {
        match entity {
            Entity::Cell(genome_id) => self.execute(x, y, genome_id, perceptor, settings),
            _ => Vec::new(),
        }
    }

    /// Applies `actions` to `affector` in order, drawing the outcomes of
    /// each reproduction at random.
    pub fn apply(&self, actions: &Vec<Action>, affector: &mut World)
        requires
            old(affector).wf(),
        ensures
            final(affector).wf(),
            final(affector).settings == old(affector).settings,
            exists|draws: Seq<ChildDraw>|
                #[trigger] draws_valid(draws, old(affector).settings) && draws.len() == actions@.len()
                    && final(affector)@ == effects(old(affector)@, actions@, draws),
    {
        let ghost draws: Seq<ChildDraw> = seq![];
        let mut i: usize = 0;
        while i < actions.len()
            invariant
                affector.wf(),
                i <= actions@.len(),
                affector.settings == old(affector).settings,
                draws.len() == i,
                draws_valid(draws, old(affector).settings),
                affector@ == effects(old(affector)@, actions@.take(i as int), draws),
            decreases actions@.len() - i,
        {
            let action = actions[i];
            let draw = match action {
                Action::Reproduce(_) => ChildDraw::random(&affector.settings),
                _ => ChildDraw::quiet(),
            };
            action.apply_with(affector, draw);
            proof {
                let before = draws;
                draws = draws.push(draw);
                assert(actions@.take(i + 1).drop_last() =~= actions@.take(i as int));
                assert(draws.drop_last() =~= before);
                assert forall|k: int| 0 <= k < draws.len() implies #[trigger] draws[k].valid(old(affector).settings) by {
                    if k < before.len() {
                        assert(before[k].valid(old(affector).settings));
                    }
                }
            }
            i = i + 1;
        }
        assert(actions@.take(actions@.len() as int) =~= actions@);
    }

    /// The actions of the organism `genome_id` at `(x, y)` for one tick:
    /// `steps_per_turn` genes from where it left off, read against
    /// `perceptor`, as `execution` states. The resume position is stored
    /// once, at the end. An identity whose genome or state is not stored
    /// yields no actions.
    pub fn execute(
        &mut self,
        x: Coords,
        y: Coords,
        genome_id: GenomeId,
        perceptor: &World,
        settings: &Settings,
    ) -> (r: Vec<Action>)
        requires
            old(self).wf(),
            perceptor.wf(),
        ensures
            final(self).wf(),
            (r@, final(self)@) == execution(perceptor@, old(self)@, *settings, x, y, genome_id),
    {
        let mut actions: Vec<Action> = Vec::new();
        let genome = match perceptor.get_genome(genome_id) {
            Some(g) => g,
            None => {
                return actions;
            },
        };
        let health = match perceptor.cell_states.find(genome_id) {
            Some(state) => state.health,
            None => {
                return actions;
            },
        };
        let ghost w = perceptor@;
        let ghost genes = w.genomes[genome_id];
        let ghost cursors = self@;
        let start = self.get_genome_index(genome_id);
        let steps = settings.steps_per_turn;
        let mut index = start;
        let mut step: usize = 0;
        while step < steps
            invariant
                perceptor.wf(),
                w == perceptor@,
                genes == genome.genes@,
                genes.len() == GENOME_LENGTH,
                health == w.states[genome_id].health,
                step <= steps,
                steps == settings.steps_per_turn,
                index < GENOME_LENGTH,
                (actions@, index as int) == run(w, *settings, x, y, genome_id, genes, start as int, step as nat),
            decreases steps - step,
        {
            let gene = genome.genes[index];
            let advance: usize;
            if gene == PHOTOSYNTHESIS {
                actions.push(Action::UpdateHealth(UpdateHealthAction::new(x, y, settings.photosynthesis_adds)));
                advance = 1;
            } else if gene == ATTACK {
                match perceptor.find_target_around(x, y) {
                    Some(_) => actions.push(Action::Attack(AttackAction::new(x, y, settings.attack_damage))),
                    None => actions.push(Action::UpdateHealth(UpdateHealthAction::new(x, y, settings.attack_cost))),
                }
                advance = 1;
            } else if gene == REPRODUCE {
                if health > settings.reproduce_threshold {
                    match perceptor.find_vacant_place_around(x, y) {
                        Some(_) => actions.push(Action::Reproduce(ReproduceAction::new(x, y))),
                        None => actions.push(
                            Action::UpdateHealth(UpdateHealthAction::new(x, y, settings.reproduce_cost)),
                        ),
                    }
                }
                advance = 1;
            } else if gene == MOVE {
                actions.push(Action::Move(MoveAction::new(x, y)));
                advance = 1;
            } else if gene == TURN {
                let amount = genome.genes[(index + 1) % GENOME_LENGTH] % 8;
                actions.push(Action::Rotate(RotateAction::new(x, y, amount)));
                advance = 2;
            } else if gene == SENSE {
                actions.push(Action::UpdateHealth(UpdateHealthAction::new(x, y, settings.sense_cost)));
                advance = match perceptor.looking_at(x, y) {
                    Some((target_x, target_y)) => match perceptor.get_entity(target_x, target_y) {
                        Entity::Nothing => 1,
                        Entity::Cell(_) => 2,
                        Entity::Corpse(_) => 3,
                    },
                    None => 1,
                };
            } else if gene == DEFILE {
                let on_corpse = match perceptor.looking_at(x, y) {
                    Some((target_x, target_y)) => match perceptor.get_entity(target_x, target_y) {
                        Entity::Corpse(_) => true,
                        _ => false,
                    },
                    None => false,
                };
                if on_corpse {
                    actions.push(Action::Defile(DefileAction::new(x, y, settings.defile_damage)));
                } else {
                    actions.push(Action::UpdateHealth(UpdateHealthAction::new(x, y, settings.defile_cost)));
                }
                advance = 1;
            } else {
                advance = 1;
            }
            index = (index + advance) % GENOME_LENGTH;
            step = step + 1;
        }
        self.update_genome_index(genome_id, index);
        proof {
            assert(self@ =~= cursors.insert(genome_id, index));
        }
        actions
    }
}

} // verus!
