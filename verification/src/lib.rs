//! The bot's in-process cache and the small pure rules around it.
//!
//! The cache is a keyed store of values drawn from a closed set of domain
//! types. Every entry may carry a deadline and the name of a backing
//! collection to which its value is handed when it is evicted for age.

pub mod anilist;
pub mod cache_laws;
pub mod cache_manager;
pub mod cache_store;
pub mod cache_value;
pub mod clock;
pub mod commands;
pub mod database;
pub mod quantity;
pub mod tasks;
pub mod text;
pub mod tuforums;
pub mod utils;
