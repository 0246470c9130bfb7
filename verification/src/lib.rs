//! Keyset pagination over a uniquely keyed, externally sorted collection.

pub mod account;
pub mod api;
pub mod auth;
pub mod board;
pub mod client;
pub mod config;
pub mod container;
pub mod conv;
pub mod data;
pub mod db;
pub mod error;
pub mod graph;
pub mod migration;
pub mod persist;
pub mod post;
pub mod query;
pub mod types;
