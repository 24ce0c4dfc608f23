//! The character: its state requests, its per-tick snapshot and its logic.

pub mod character;
pub mod command;
pub mod request;
pub mod snapshot;

pub use character::CharacterLogic;
pub use snapshot::CharacterId;
