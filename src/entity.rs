use vstd::prelude::*;

use crate::genes::{GenomeId, HealthType};

verus! {

/// What occupies one grid cell.
#[derive(Clone, Copy, Debug, PartialEq, Eq, Structural)]
pub enum Entity {
    /// Empty space.
    Nothing,
    /// A living organism, known by its genome's identity.
    Cell(GenomeId),
    /// Dead matter with what remains of it.
    Corpse(HealthType),
}

} // verus!
