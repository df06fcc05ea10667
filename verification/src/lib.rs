//! Calendar-structured effort records derived from commit-log text, and the
//! decisions of the short-lived publication that makes them addressable.

pub mod pattern;
pub mod publish;
pub mod repo;
pub mod aggregate;
pub mod calendar;
pub mod config;
pub mod keyed;
pub mod mock_repo_dep;
pub mod text;
pub mod token;
pub mod utils;
