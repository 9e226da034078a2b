//! The decision logic of individual sketches: which options their controls
//! offer and how control values select what is drawn.

pub mod displacement_2;
pub mod displacement_2a;
pub mod vertical;
