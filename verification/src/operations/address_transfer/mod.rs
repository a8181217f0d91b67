//! The operations that work with the address itself: ENT, ENN, INC, DEC.

pub mod enter;
pub mod increase;

pub use enter::Enter;
pub use increase::Increase;
