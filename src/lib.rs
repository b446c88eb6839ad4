//! Mission management core: mission lifecycle, crew membership and the
//! read-then-write guards that keep status and crew count consistent.

pub mod brawler;
pub mod brawler_store;
pub mod error;
pub mod laws;
pub mod mission;
pub mod mission_statuses;
pub mod repositories;
pub mod rules;
pub mod store;
pub mod text;
pub mod use_cases;
