//! Verified core of a command-line tracker for the anime a learner watches
//! while immersing in Japanese: the data model, the SQL statements that the
//! tracker runs against its local database, and the decisions that each
//! command takes between reading and writing.
pub mod text;
pub mod anime_api_data;
pub mod error_ctrl;
pub mod commands;
pub mod db;
pub mod anilist_api;
pub mod utils;
pub mod output;
pub mod operations;
pub mod laws;
