//! Steam identifiers and the request side of the Steam web API.
//!
//! A [`SteamID`] is a 64-bit account handle made of four bit fields. This crate
//! packs and unpacks those fields, reads and writes the textual dialects that
//! name such a handle, and prepares the requests that carry one to the web API.

pub mod classic;
pub mod client;
pub mod codec;
pub mod community;
pub mod decimal;
pub mod error;
pub mod kinds;
pub mod order;
pub mod outside;
pub mod player_service;
pub mod steam_id;
pub mod text;
pub mod utils;

pub use classic::{format_classic, parse_classic};
pub use client::SteamClient;
pub use codec::{pack, unpack, Fields};
pub use community::{format_community, parse_community};
pub use error::SteamIdError;
pub use kinds::{AccountType, Universe};
pub use player_service::get_badges::{Badge, Badges};
pub use steam_id::SteamID;
pub use text::parse_raw;
pub use utils::{ApiError, ErrorKind};
