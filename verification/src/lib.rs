//! Animation-state resolution and hit-zone damage rules for a first-person
//! aim trainer, stated and proved over plain integer data.
//!
//! Durations are whole milliseconds, speeds whole millimetres per second,
//! lengths whole millimetres and damage multipliers whole percent.

pub mod config;
pub mod controller;
pub mod game_state;
pub mod guarantees;
pub mod hitbox;
pub mod input;
pub mod locomotion;
pub mod menu;
pub mod nodes;
pub mod playback;
pub mod player_model;
pub mod shooting;
pub mod skins;
pub mod upper_body;
pub mod weapon;
