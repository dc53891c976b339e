//! The stream provider: what it answers and how its addresses are built.

pub mod allanime;
pub mod models;
