//! A minimal economy simulation: agents with fixed production roles transform
//! input commodities into output commodities, subject to per-commodity stock
//! and capacity limits held in per-agent inventories.
//!
//! The heart of the crate is the production engine in [`production`]: the rule
//! that decides whether a role's recipe can fire against an agent's current
//! inventories, and the atomic set of inventory mutations that results when it
//! does. [`step`] runs the engine over every agent once and collects the
//! mutations of one simulation step. Storage, seeding and the process entry
//! point are left to the surrounding application; the library works on plain
//! in-memory records.

pub mod models;
pub mod strategy;
pub mod production;
pub mod step;
pub mod laws;
