//! Who plays where: a tracker of the population of the game's worlds.
//!
//! The tracker listens to the game's feed of events, remembers for a few
//! minutes where each active character was last seen, counts these records
//! into a tree of worlds, zones, teams and loadouts, and lays out how each
//! count is stored as a revision and read back.
pub mod active_players;
pub mod census;
pub mod controllers;
pub mod discord;
pub mod event_handlers;
pub mod google_calendar;
pub mod json;
pub mod storage;
pub mod text;
pub mod utils;
pub mod web;
