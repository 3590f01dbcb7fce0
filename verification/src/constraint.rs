//! The constraint solver family: four kinds of kinematic links, each
//! resolved by sequential impulses.

pub mod distance;
pub mod fixed_length;
pub mod leq_length;
pub mod pulley;
