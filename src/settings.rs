use vstd::prelude::*;

use crate::genes::HealthType;

verus! {

/// Denominator of `Settings::mutation_probability`: probabilities are given
/// in millionths.
pub const MUTATION_SCALE: u32 = 1000000;

/// The tunable costs, yields and thresholds of a world.
///
/// Costs are deltas added to the actor's health, so a negative cost takes
/// health away.
#[derive(Clone, Copy, Debug, PartialEq, Eq, Structural)]
pub struct Settings {
    /// Genes interpreted per organism and tick.
    pub steps_per_turn: usize,
    /// Health delta charged for each reproduction gene that passes the threshold.
    pub reproduce_cost: HealthType,
    /// An organism reproduces only with health above this.
    pub reproduce_threshold: HealthType,
    /// Health delta of one photosynthesis gene.
    pub photosynthesis_adds: HealthType,
    /// Health of an organism placed without an explicit state.
    pub initial_cell_health: HealthType,
    /// Damage of one attack.
    pub attack_damage: HealthType,
    /// How much of a corpse one defile gene tries to eat.
    pub defile_damage: HealthType,
    /// Health delta charged for each attack gene.
    pub attack_cost: HealthType,
    /// Health delta charged for each move gene.
    pub move_cost: HealthType,
    /// Health delta charged for each turn gene.
    pub turn_cost: HealthType,
    /// Health delta charged for each sense gene.
    pub sense_cost: HealthType,
    /// Health delta charged for each defile gene.
    pub defile_cost: HealthType,
    /// By how much a decay action shrinks a corpse.
    pub corpse_decay: HealthType,
    /// Remains of a freshly dead organism.
    pub corpse_initial: HealthType,
    /// Chance, in millionths, that a child has one gene overwritten.
    pub mutation_probability: u32,
}

impl Settings {
    /// The values used by a running simulation.
    pub fn prod() -> (r: Settings)
        ensures
            r == prod_settings(),
    {
        Settings {
            steps_per_turn: 1,
            reproduce_cost: -10i32,
            reproduce_threshold: 20,
            photosynthesis_adds: 5,
            initial_cell_health: 10,
            attack_damage: 100,
            defile_damage: 10,
            attack_cost: -5i32,
            move_cost: -5i32,
            turn_cost: -5i32,
            sense_cost: -5i32,
            defile_cost: -1i32,
            corpse_decay: -2i32,
            corpse_initial: 20,
            mutation_probability: 500000,
        }
    }

    /// Genes interpreted per organism and tick.
    pub fn steps_per_turn(&self) -> (r: usize)
        ensures
            r == self.steps_per_turn,
    {
        self.steps_per_turn
    }

    /// Health delta charged for each reproduction gene that passes the threshold.
    pub fn reproduce_cost(&self) -> (r: HealthType)
        ensures
            r == self.reproduce_cost,
    {
        self.reproduce_cost
    }

    /// An organism reproduces only with health above this.
    pub fn reproduce_threshold(&self) -> (r: HealthType)
        ensures
            r == self.reproduce_threshold,
    {
        self.reproduce_threshold
    }

    /// Health delta of one photosynthesis gene.
    pub fn photosynthesis_adds(&self) -> (r: HealthType)
        ensures
            r == self.photosynthesis_adds,
    {
        self.photosynthesis_adds
    }

    /// Health of an organism placed without an explicit state.
    pub fn initial_cell_health(&self) -> (r: HealthType)
        ensures
            r == self.initial_cell_health,
    {
        self.initial_cell_health
    }

    /// Damage of one attack.
    pub fn attack_damage(&self) -> (r: HealthType)
        ensures
            r == self.attack_damage,
    {
        self.attack_damage
    }

    /// How much of a corpse one defile gene tries to eat.
    pub fn defile_damage(&self) -> (r: HealthType)
        ensures
            r == self.defile_damage,
    {
        self.defile_damage
    }

    /// Health delta charged for each attack gene.
    pub fn attack_cost(&self) -> (r: HealthType)
        ensures
            r == self.attack_cost,
    {
        self.attack_cost
    }

    /// Health delta charged for each move gene.
    pub fn move_cost(&self) -> (r: HealthType)
        ensures
            r == self.move_cost,
    {
        self.move_cost
    }

    /// Health delta charged for each turn gene.
    pub fn turn_cost(&self) -> (r: HealthType)
        ensures
            r == self.turn_cost,
    {
        self.turn_cost
    }

    /// Health delta charged for each sense gene.
    pub fn sense_cost(&self) -> (r: HealthType)
        ensures
            r == self.sense_cost,
    {
        self.sense_cost
    }

    /// Health delta charged for each defile gene.
    pub fn defile_cost(&self) -> (r: HealthType)
        ensures
            r == self.defile_cost,
    {
        self.defile_cost
    }

    /// By how much a decay action shrinks a corpse.
    pub fn corpse_decay(&self) -> (r: HealthType)
        ensures
            r == self.corpse_decay,
    {
        self.corpse_decay
    }

    /// Remains of a freshly dead organism.
    pub fn corpse_initial(&self) -> (r: HealthType)
        ensures
            r == self.corpse_initial,
    {
        self.corpse_initial
    }

    /// Chance, in millionths, that a child has one gene overwritten.
    pub fn mutation_probability(&self) -> (r: u32)
        ensures
            r == self.mutation_probability,
    {
        self.mutation_probability
    }
}

/// The production values.
pub open spec fn prod_settings() -> Settings {
    Settings {
        steps_per_turn: 1,
        reproduce_cost: -10i32,
        reproduce_threshold: 20,
        photosynthesis_adds: 5,
        initial_cell_health: 10,
        attack_damage: 100,
        defile_damage: 10,
        attack_cost: -5i32,
        move_cost: -5i32,
        turn_cost: -5i32,
        sense_cost: -5i32,
        defile_cost: -1i32,
        corpse_decay: -2i32,
        corpse_initial: 20,
        mutation_probability: 500000,
    }
}

/// The production values with every cost, yield, damage, threshold, corpse
/// value and the mutation chance set to zero.
pub open spec fn zero_settings() -> Settings {
    Settings {
        steps_per_turn: 1,
        reproduce_cost: 0,
        reproduce_threshold: 0,
        photosynthesis_adds: 0,
        initial_cell_health: 10,
        attack_damage: 0,
        defile_damage: 0,
        attack_cost: 0,
        move_cost: 0,
        turn_cost: 0,
        sense_cost: 0,
        defile_cost: 0,
        corpse_decay: 0,
        corpse_initial: 0,
        mutation_probability: 0,
    }
}

/// Builds `Settings` one option at a time, starting from the production values.
pub struct SettingsBuilder {
    pub settings: Settings,
}

impl SettingsBuilder {
    /// A builder holding the production values.
    pub fn prod() -> (r: SettingsBuilder)
        ensures
            r.settings == prod_settings(),
    {
        SettingsBuilder { settings: Settings::prod() }
    }

    /// Settings for deterministic tests: nothing costs, yields or mutates.
    pub fn zero() -> (r: Settings)
        ensures
            r == zero_settings(),
    {
        Settings {
            steps_per_turn: 1,
            reproduce_cost: 0,
            reproduce_threshold: 0,
            photosynthesis_adds: 0,
            initial_cell_health: 10,
            attack_damage: 0,
            defile_damage: 0,
            attack_cost: 0,
            move_cost: 0,
            turn_cost: 0,
            sense_cost: 0,
            defile_cost: 0,
            corpse_decay: 0,
            corpse_initial: 0,
            mutation_probability: 0,
        }
    }

    /// Sets the number of genes interpreted per organism and tick.
    pub fn with_steps_per_turn(&mut self, value: usize) -> (r: &mut SettingsBuilder)
        ensures
            r.settings == (Settings { steps_per_turn: value, ..old(self).settings }),
            *final(self) == *final(r),
    {
        self.settings.steps_per_turn = value;
        self
    }

    /// Sets `reproduce_cost`.
    pub fn with_reproduce_cost(&mut self, value: HealthType) -> (r: &mut SettingsBuilder)
        ensures
            r.settings == (Settings { reproduce_cost: value, ..old(self).settings }),
            *final(self) == *final(r),
    {
        self.settings.reproduce_cost = value;
        self
    }

    /// Sets `reproduce_threshold`.
    pub fn with_reproduce_threshold(&mut self, value: HealthType) -> (r: &mut SettingsBuilder)
        ensures
            r.settings == (Settings { reproduce_threshold: value, ..old(self).settings }),
            *final(self) == *final(r),
    {
        self.settings.reproduce_threshold = value;
        self
    }

    /// Sets `photosynthesis_adds`.
    pub fn with_photosynthesis_adds(&mut self, value: HealthType) -> (r: &mut SettingsBuilder)
        ensures
            r.settings == (Settings { photosynthesis_adds: value, ..old(self).settings }),
            *final(self) == *final(r),
    {
        self.settings.photosynthesis_adds = value;
        self
    }

    /// Sets `initial_cell_health`.
    pub fn with_initial_cell_health(&mut self, value: HealthType) -> (r: &mut SettingsBuilder)
        ensures
            r.settings == (Settings { initial_cell_health: value, ..old(self).settings }),
            *final(self) == *final(r),
    {
        self.settings.initial_cell_health = value;
        self
    }

    /// Sets `attack_damage`.
    pub fn with_attack_damage(&mut self, value: HealthType) -> (r: &mut SettingsBuilder)
        ensures
            r.settings == (Settings { attack_damage: value, ..old(self).settings }),
            *final(self) == *final(r),
    {
        self.settings.attack_damage = value;
        self
    }

    /// Sets `defile_damage`.
    pub fn with_defile_damage(&mut self, value: HealthType) -> (r: &mut SettingsBuilder)
        ensures
            r.settings == (Settings { defile_damage: value, ..old(self).settings }),
            *final(self) == *final(r),
    {
        self.settings.defile_damage = value;
        self
    }

    /// Sets `attack_cost`.
    pub fn with_attack_cost(&mut self, value: HealthType) -> (r: &mut SettingsBuilder)
        ensures
            r.settings == (Settings { attack_cost: value, ..old(self).settings }),
            *final(self) == *final(r),
    {
        self.settings.attack_cost = value;
        self
    }

    /// Sets `move_cost`.
    pub fn with_move_cost(&mut self, value: HealthType) -> (r: &mut SettingsBuilder)
        ensures
            r.settings == (Settings { move_cost: value, ..old(self).settings }),
            *final(self) == *final(r),
    {
        self.settings.move_cost = value;
        self
    }

    /// Sets `turn_cost`.
    pub fn with_turn_cost(&mut self, value: HealthType) -> (r: &mut SettingsBuilder)
        ensures
            r.settings == (Settings { turn_cost: value, ..old(self).settings }),
            *final(self) == *final(r),
    {
        self.settings.turn_cost = value;
        self
    }

    /// Sets `sense_cost`.
    pub fn with_sense_cost(&mut self, value: HealthType) -> (r: &mut SettingsBuilder)
        ensures
            r.settings == (Settings { sense_cost: value, ..old(self).settings }),
            *final(self) == *final(r),
    {
        self.settings.sense_cost = value;
        self
    }

    /// Sets `defile_cost`.
    pub fn with_defile_cost(&mut self, value: HealthType) -> (r: &mut SettingsBuilder)
        ensures
            r.settings == (Settings { defile_cost: value, ..old(self).settings }),
            *final(self) == *final(r),
    {
        self.settings.defile_cost = value;
        self
    }

    /// Sets `corpse_decay`.
    pub fn with_corpse_decay(&mut self, value: HealthType) -> (r: &mut SettingsBuilder)
        ensures
            r.settings == (Settings { corpse_decay: value, ..old(self).settings }),
            *final(self) == *final(r),
    {
        self.settings.corpse_decay = value;
        self
    }

    /// Sets `corpse_initial`.
    pub fn with_corpse_initial(&mut self, value: HealthType) -> (r: &mut SettingsBuilder)
        ensures
            r.settings == (Settings { corpse_initial: value, ..old(self).settings }),
            *final(self) == *final(r),
    {
        self.settings.corpse_initial = value;
        self
    }

    /// Sets the mutation chance, in millionths.
    pub fn with_mutation_probability(&mut self, value: u32) -> (r: &mut SettingsBuilder)
        ensures
            r.settings == (Settings { mutation_probability: value, ..old(self).settings }),
            *final(self) == *final(r),
    {
        self.settings.mutation_probability = value;
        self
    }

    /// The settings built so far.
    pub fn build(&mut self) -> (r: Settings)
        ensures
            r == old(self).settings,
            *final(self) == *old(self),
    {
        self.settings
    }
}

} // verus!
