//! Verified core of a Mythic+ leaderboard collector for the Battle.net API.
pub mod text;
pub mod model;
pub mod json;
pub mod row;
pub mod error;
pub mod links;
pub mod query;
pub mod report;
