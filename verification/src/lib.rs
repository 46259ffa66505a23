//! One-shot function wrappers and their sequential composition.

pub mod behavior;
pub mod double;
pub mod fun;
pub mod laws;

pub use behavior::Behavior;
pub use fun::{id, Fun};
