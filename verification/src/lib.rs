//! Procedural narrative-event generation for a tile-based life-simulation
//! game: given the player's standing and session history, selects an authored
//! situation by constraint filtering and weighted random choice, synthesizes
//! its outcomes, risks and text, and falls back to a pre-indexed handcrafted
//! event database when nothing qualifies. Contracts state the filtering,
//! scaling, risk and fallback rules exactly; randomness enters only through a
//! seedable handle.

pub mod converter;
pub mod fallback;
pub mod game_data;
pub mod generator;
pub mod library;
pub mod player;
pub mod requirements;
pub mod risk_calculator;
pub mod rng;
pub mod stat_calculator;
pub mod strings;
pub mod text_assembly;
pub mod widget;
