//! Data structures shared by the crawler's components.

pub mod interner;
pub mod tables;
