use vstd::prelude::*;

verus! {

/// A grid coordinate; any value is accepted and wrapped around the torus.
pub type Coords = i32;

/// The identity of a genome, and through it of the organism that carries it.
pub type GenomeId = u64;

/// One instruction of a genome.
pub type Gene = usize;

/// Health of an organism, and the amounts by which it changes.
pub type HealthType = i32;

/// A position inside a genome.
pub type GeneIndex = usize;

/// Number of genes in every genome.
pub const GENOME_LENGTH: usize = 64;

/// Gene values handed out by random mutation lie below this bound.
pub const GENE_COUNT: usize = 64;

/// Feeds on the corpse the organism faces.
pub const DEFILE: Gene = 25;

/// Looks at the faced cell and skips ahead depending on what is there.
pub const SENSE: Gene = 26;

/// Turns by the amount held in the following gene.
pub const TURN: Gene = 27;

/// Steps one cell forward.
pub const MOVE: Gene = 28;

/// Bites the faced cell when some living neighbour exists.
pub const ATTACK: Gene = 29;

/// Spawns a child when healthy enough and some neighbour cell is free.
pub const REPRODUCE: Gene = 30;

/// Gains health from light.
pub const PHOTOSYNTHESIS: Gene = 31;

/// Every gene value that the interpreter acts on.
pub const KNOWN_GENES: [Gene; 7] = [DEFILE, SENSE, TURN, MOVE, ATTACK, REPRODUCE, PHOTOSYNTHESIS];

} // verus!
