//! Grid-bound agents driven by a shared behaviour tree, with a verified
//! character state machine and terrain model.

pub mod ai;
pub mod animator;
pub mod api;
pub mod bt;
pub mod character;
pub mod console_animator;
pub mod directions;
pub mod executor;
pub mod fixed;
pub mod fsm;
pub mod logger;
pub mod logic_map;
pub mod map;
pub mod scripting;
pub mod text;
pub mod vector2d;
pub mod vector2di;
