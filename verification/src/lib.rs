//! Core of a Minecraft game launcher: version-descriptor inheritance,
//! per-library rule evaluation, Maven-coordinate path resolution, native
//! archive extraction planning, and launch argument assembly.
//!
//! Everything here is plain data-to-data logic, specified and verified with
//! Verus. File and process I/O (reading descriptor files, extracting zip
//! entries, spawning the game) lives in the surrounding application, which
//! feeds this library plain values and acts on the plans it returns.

pub mod auth;
pub mod coord;
pub mod error;
pub mod external;
pub mod game;
pub mod java;
pub mod launcher;
pub mod mods;
pub mod natives;
pub mod platform;
pub mod profiles;
pub mod rules;
pub mod scanner;
pub mod settings;
pub mod skins;
pub mod text;
