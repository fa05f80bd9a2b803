//! A toy simulation of quantum spaghetti: noodles that entangle and collapse
//! into one of three states, and an engine that keeps a registry of them,
//! a sauce field that grows with each registration, and a meatball count.
//! Floating-point quantities are carried as IEEE-754 binary64 bit patterns.

pub mod engine;
pub mod noodle;

pub use engine::{EngineView, GUPTEngine, PastaEvent};
pub use noodle::{NoodleState, PastaError, QuantumNoodle, SauceParticle, SpaghettiVortex};
