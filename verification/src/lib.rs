//! Rules of a social-deduction game: the role catalogue, role lists and
//! outlines, and the decisions each role makes, stated over plain values.

pub mod vec_set;
pub mod sort;
mod random;
pub mod game;
