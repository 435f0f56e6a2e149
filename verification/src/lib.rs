//! Game rules of an arena-survival shooter: wave progression, difficulty
//! scaling, enemy statistics, player damage and experience, upgrades and loot.
//!
//! Every real-valued quantity is held as a fixed-point integer counted in
//! thousandths: a duration is a number of milliseconds, a health of `100` is
//! `100_000`, a multiplier of `1.5` is `1500`, a probability of `0.2` is `200`.
//! Quantities that cannot be negative are unsigned; health and coordinates are
//! signed. Sums and products that leave the 64-bit range stop at its ends.
//!
//! Nothing here draws, plays sound or reads input: a host engine feeds elapsed
//! time and notifications in and turns the returned events into entities.

pub mod asteroid;
pub mod audio;
pub mod config;
pub mod difficulty;
pub mod enemy;
pub mod fixed;
pub mod fx;
pub mod game;
pub mod loot;
pub mod player;
pub mod random;
pub mod ui;
pub mod upgrade;
pub mod vec3;
pub mod wave;
