use vstd::prelude::*;

use crate::chance::ChildDraw;
use crate::genes::{Coords, Gene, HealthType, ATTACK, DEFILE, MOVE, REPRODUCE, TURN};
use crate::model::WorldView;
use crate::settings::Settings;
use crate::world::World;

verus! {

/// Turns whatever is at `(x, y)` into a fresh corpse.
#[derive(Clone, Copy, Debug, PartialEq, Eq, Structural)]
pub struct KillAction {
    pub x: Coords,
    pub y: Coords,
}

impl KillAction {
    /// The action at `(x, y)`.
    pub fn new(x: Coords, y: Coords) -> (r: KillAction)
        ensures
            r.x == x,
            r.y == y,
    {
        KillAction { x, y }
    }
}

/// Adds `health_delta` to the health of the organism at `(x, y)`.
#[derive(Clone, Copy, Debug, PartialEq, Eq, Structural)]
pub struct UpdateHealthAction {
    pub x: Coords,
    pub y: Coords,
    pub health_delta: HealthType,
}

impl UpdateHealthAction {
    /// The action at `(x, y)`.
    pub fn new(x: Coords, y: Coords, health_delta: HealthType) -> (r: UpdateHealthAction)
        ensures
            r.x == x,
            r.y == y,
            r.health_delta == health_delta,
    {
        UpdateHealthAction { x, y, health_delta }
    }
}

/// The organism at `(x, y)` pays for and attempts a reproduction.
#[derive(Clone, Copy, Debug, PartialEq, Eq, Structural)]
pub struct ReproduceAction {
    pub x: Coords,
    pub y: Coords,
}

impl ReproduceAction {
    /// The action at `(x, y)`.
    pub fn new(x: Coords, y: Coords) -> (r: ReproduceAction)
        ensures
            r.x == x,
            r.y == y,
    {
        ReproduceAction { x, y }
    }
}

/// The organism at `(x, y)` pays for and makes an attack on what it faces.
#[derive(Clone, Copy, Debug, PartialEq, Eq, Structural)]
pub struct AttackAction {
    pub x: Coords,
    pub y: Coords,
    pub damage: HealthType,
}

impl AttackAction {
    /// The action at `(x, y)`.
    pub fn new(x: Coords, y: Coords, damage: HealthType) -> (r: AttackAction)
        ensures
            r.x == x,
            r.y == y,
            r.damage == damage,
    {
        AttackAction { x, y, damage }
    }
}

/// The organism at `(x, y)` pays for and attempts a step forward.
#[derive(Clone, Copy, Debug, PartialEq, Eq, Structural)]
pub struct MoveAction {
    pub x: Coords,
    pub y: Coords,
}

impl MoveAction {
    /// The action at `(x, y)`.
    pub fn new(x: Coords, y: Coords) -> (r: MoveAction)
        ensures
            r.x == x,
            r.y == y,
    {
        MoveAction { x, y }
    }
}

/// The organism at `(x, y)` pays for and makes a turn by `value` steps.
#[derive(Clone, Copy, Debug, PartialEq, Eq, Structural)]
pub struct RotateAction {
    pub x: Coords,
    pub y: Coords,
    pub value: Gene,
}

impl RotateAction {
    /// The action at `(x, y)`.
    pub fn new(x: Coords, y: Coords, value: Gene) -> (r: RotateAction)
        ensures
            r.x == x,
            r.y == y,
            r.value == value,
    {
        RotateAction { x, y, value }
    }
}

/// The organism at `(x, y)` pays for and takes a bite of the corpse it faces.
#[derive(Clone, Copy, Debug, PartialEq, Eq, Structural)]
pub struct DefileAction {
    pub x: Coords,
    pub y: Coords,
    pub damage: HealthType,
}

impl DefileAction {
    /// The action at `(x, y)`.
    pub fn new(x: Coords, y: Coords, damage: HealthType) -> (r: DefileAction)
        ensures
            r.x == x,
            r.y == y,
            r.damage == damage,
    {
        DefileAction { x, y, damage }
    }
}

/// The corpse at `(x, y)` shrinks by `decay`.
#[derive(Clone, Copy, Debug, PartialEq, Eq, Structural)]
pub struct DecayAction {
    pub x: Coords,
    pub y: Coords,
    pub decay: HealthType,
}

impl DecayAction {
    /// The action at `(x, y)`.
    pub fn new(x: Coords, y: Coords, decay: HealthType) -> (r: DecayAction)
        ensures
            r.x == x,
            r.y == y,
            r.decay == decay,
    {
        DecayAction { x, y, decay }
    }
}

/// An intended change to the world, produced by interpreting a genome and
/// applied once every organism has been interpreted.
#[derive(Clone, Copy, Debug, PartialEq, Eq, Structural)]
pub enum Action {
    Kill(KillAction),
    UpdateHealth(UpdateHealthAction),
    Reproduce(ReproduceAction),
    Attack(AttackAction),
    Move(MoveAction),
    Rotate(RotateAction),
    Defile(DefileAction),
    Decay(DecayAction),
}

/// The world after `action`, with the chance outcomes `draw` for a
/// reproduction. Every action that a gene produces, but a plain health
/// update, first charges the actor the cost of its gene.
pub open spec fn action_effect(v: WorldView, action: Action, draw: ChildDraw) -> WorldView {
    match action {
        Action::Kill(a) => v.killed(a.x as int, a.y as int),
        Action::UpdateHealth(a) => v.health_update(a.x as int, a.y as int, a.health_delta).0,
        Action::Reproduce(a) => v.charge(a.x as int, a.y as int, REPRODUCE).reproduced(
            a.x as int,
            a.y as int,
            draw,
        ),
        Action::Attack(a) => v.charge(a.x as int, a.y as int, ATTACK).attacked(
            a.x as int,
            a.y as int,
            a.damage,
        ),
        Action::Move(a) => v.charge(a.x as int, a.y as int, MOVE).moved(a.x as int, a.y as int),
        Action::Rotate(a) => v.charge(a.x as int, a.y as int, TURN).turned(
            a.x as int,
            a.y as int,
            a.value as int,
        ),
        Action::Defile(a) => v.charge(a.x as int, a.y as int, DEFILE).defiled(
            a.x as int,
            a.y as int,
            a.damage,
        ),
        Action::Decay(a) => v.decayed(a.x as int, a.y as int, a.decay),
    }
}

/// The world after `actions` in order, the `i`-th with the outcomes `draws[i]`.
pub open spec fn effects(v: WorldView, actions: Seq<Action>, draws: Seq<ChildDraw>) -> WorldView
    decreases actions.len(),
{
    if actions.len() == 0 || draws.len() != actions.len() {
        v
    } else {
        action_effect(effects(v, actions.drop_last(), draws.drop_last()), actions.last(), draws.last())
    }
}

/// Every outcome in `draws` can come from a draw under `settings`.
pub open spec fn draws_valid(draws: Seq<ChildDraw>, settings: Settings) -> bool {
    forall|i: int| 0 <= i < draws.len() ==> #[trigger] draws[i].valid(settings)
}

impl Action {
    /// Applies this action to `world`, with the chance outcomes `draw` for a
    /// reproduction.
    pub fn apply_with(&self, world: &mut World, draw: ChildDraw)
        requires
            old(world).wf(),
        ensures
            final(world).wf(),
            final(world)@ == action_effect(old(world)@, *self, draw),
            final(world).settings == old(world).settings,
    {
        match *self {
            Action::Kill(a) => world.kill(a.x, a.y),
            Action::UpdateHealth(a) => {
                world.update_health(a.x, a.y, a.health_delta);
            },
            Action::Reproduce(a) => {
                world.punish_for_action(a.x, a.y, REPRODUCE);
                world.reproduce_with(a.x, a.y, draw);
            },
            Action::Attack(a) => {
                world.punish_for_action(a.x, a.y, ATTACK);
                world.attack(a.x, a.y, a.damage);
            },
            Action::Move(a) => {
                world.punish_for_action(a.x, a.y, MOVE);
                world.move_cell(a.x, a.y);
            },
            Action::Rotate(a) => {
                world.punish_for_action(a.x, a.y, TURN);
                world.rotate_cell(a.x, a.y, a.value);
            },
            Action::Defile(a) => {
                world.punish_for_action(a.x, a.y, DEFILE);
                world.defile(a.x, a.y, a.damage);
            },
            Action::Decay(a) => world.decay(a.x, a.y, a.decay),
        }
    }

    /// Applies this action to `world`, drawing the outcomes of a
    /// reproduction at random.
    pub fn apply(&self, world: &mut World)
        requires
            old(world).wf(),
        ensures
            final(world).wf(),
            final(world).settings == old(world).settings,
            exists|d: ChildDraw|
                #[trigger] d.valid(old(world).settings) && final(world)@ == action_effect(old(world)@, *self, d),
    {
        let draw = match *self {
            Action::Reproduce(_) => ChildDraw::random(&world.settings),
            _ => ChildDraw::quiet(),
        };
        self.apply_with(world, draw);
        assert(draw.valid(old(world).settings));
    }
}

} // verus!
