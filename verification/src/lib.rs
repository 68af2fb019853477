//! The decisions of a dispenser block: what one activation does with the item it
//! picked, and how the block follows the redstone signal around it.
//!
//! Nothing here touches a world. An activation is a conversation: the library
//! names the next thing it has to know (`protocol::Query`), the host answers
//! (`protocol::Reply`), and the library hands out the effects that the host has
//! to carry out, in order (`protocol::Effect`).

pub mod behavior;
pub mod blocks;
pub mod chance;
pub mod containers;
pub mod dispenser;
pub mod equipment;
pub mod geometry;
pub mod inquiries;
pub mod inventory;
pub mod item;
pub mod laws;
pub mod performance;
pub mod placements;
pub mod projectile;
pub mod promises;
pub mod protocol;
pub mod questions;
pub mod redstone;
pub mod refills;
pub mod registry;
pub mod repetition;
pub mod search;
pub mod signals;
pub mod spawning;
pub mod tools;
pub mod turn;
pub mod vehicles;
