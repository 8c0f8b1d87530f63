//! Requests to the player service of the web API.

pub mod get_badges;
