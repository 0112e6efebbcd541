use vstd::prelude::*;

use std::collections::HashMap;

use crate::direction::Direction;
use crate::genes::{GenomeId, HealthType};

verus! {

broadcast use vstd::std_specs::hash::group_hash_axioms;

/// What changes in a living organism from tick to tick: its health and the
/// direction it faces.
#[derive(Clone, Copy, Debug, PartialEq, Eq, Structural)]
pub struct CellState {
    pub health: HealthType,
    pub direction: Direction,
}

impl CellState {
    /// A state with the given health and facing.
    pub fn new(initial_health: HealthType, direction: Direction) -> (r: CellState)
        ensures
            r.health == initial_health,
            r.direction == direction,
    {
        CellState { health: initial_health, direction }
    }

    /// Health 10, facing north.
    pub fn default() -> (r: CellState)
        ensures
            r.health == 10,
            r.direction == Direction::North,
    {
        CellState { health: 10, direction: Direction::North }
    }
}

/// The states of living organisms, keyed by genome identity.
pub struct CellStateStorage {
    pub states: HashMap<GenomeId, CellState>,
}

impl CellStateStorage {
    /// An empty storage.
    pub fn new() -> (r: CellStateStorage)
        ensures
            r.states@ == Map::<GenomeId, CellState>::empty(),
    {
        CellStateStorage { states: HashMap::new() }
    }

    /// Stores `cell_state` under `id`, replacing any state stored there.
    pub fn put(&mut self, id: GenomeId, cell_state: CellState)
        ensures
            final(self).states@ == old(self).states@.insert(id, cell_state),
    {
        self.states.insert(id, cell_state);
    }

    /// The state stored under `id`, to be changed in place.
    pub fn get_mut(&mut self, id: GenomeId) -> (r: &mut CellState)
        requires
            old(self).states@.contains_key(id),
        ensures
            *r == old(self).states@[id],
            final(self).states@ == old(self).states@.insert(id, *final(r)),
    {
        self.states.entry(id).or_insert(CellState::default())
    }

    /// The state stored under `id`.
    pub fn get(&self, id: GenomeId) -> (r: &CellState)
        requires
            self.states@.contains_key(id),
        ensures
            *r == self.states@[id],
    {
        self.states.get(&id).unwrap()
    }

    /// The state stored under `id`, if any.
    pub fn find(&self, id: GenomeId) -> (r: Option<&CellState>)
        ensures
            match r {
                Some(s) => self.states@.contains_key(id) && *s == self.states@[id],
                None => !self.states@.contains_key(id),
            },
    {
        self.states.get(&id)
    }

    /// Forgets the state stored under `id`, if any.
    pub fn remove(&mut self, id: GenomeId)
        ensures
            final(self).states@ == old(self).states@.remove(id),
    {
        self.states.remove(&id);
    }
}

} // verus!
