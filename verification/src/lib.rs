use vstd::prelude::*;

pub mod effects;
pub mod state;
pub mod laws;
pub mod effect_laws;
