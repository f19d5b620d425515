//! Game logic of a terminal roguelike dungeon crawler: items, the energy-driven
//! turn scheduler, menu and dungeon navigation state machines, and save-data rules.

pub mod basic;
pub mod dice;
pub mod ecs;
pub mod events;
pub mod input;
pub mod items;
pub mod render;
pub mod save;
pub mod store;
pub mod systems;
pub mod text;
pub mod turn_system;
pub mod world;
