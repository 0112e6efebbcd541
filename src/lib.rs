//! A toroidal grid of cellular organisms driven by small gene programs.
//!
//! Each organism carries a fixed-length genome that a resumable interpreter
//! (the [`processor::Processor`]) executes a few genes at a time. A world tick
//! first collects the actions of every organism against an unchanged grid and
//! then applies them in collection order.

pub mod genes;
pub mod direction;
pub mod genome;
pub mod genome_desc;
pub mod genome_storage;
pub mod cell_state;
pub mod settings;
pub mod entity;
pub mod chance;
pub mod model;
pub mod world;
pub mod action;
pub mod processor;
pub mod info;
pub mod seed;
