//! Decision engine of an autonomous tank for a multiplayer battle simulation.
//!
//! The engine decides; it neither talks to the server nor measures angles. A caller
//! hands it what the server published, with each tank's pose already measured against
//! the scanner's own, and gets back the command to send and the state to enter once
//! the server has accepted it.

pub mod angle;
pub mod comms;
pub mod controller;
pub mod domain;
pub mod error;
pub mod run_loop;
pub mod settings;
pub mod targeting;
