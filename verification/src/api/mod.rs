//! The commands that a script gives to a character.

pub mod commands;
