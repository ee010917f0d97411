//! Interactive repository picker: the filter engine, the cache freshness
//! rules, the refresh cycle and the picker's state machine.

pub mod cache;
pub mod cli;
pub mod clipboard;
pub mod filter;
pub mod formatter;
pub mod fuzzy_finder;
pub mod github;
pub mod gitlab;
pub mod menu;
pub mod repository;
pub mod text;
