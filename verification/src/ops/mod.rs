//! Operations of the MIR dialect.

pub mod cast;
