//! The basic item set: signed-level armor and rings, and the plain misc,
//! potion and scroll records, and the basic weapon vocabulary.

pub mod armor;
pub mod misc;
pub mod potion;
pub mod ring;
pub mod scroll;
pub mod weapon;
