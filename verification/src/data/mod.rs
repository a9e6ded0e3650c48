pub mod models;
pub mod config;
pub mod error;
pub mod fs;
pub mod ics;
pub mod stamps;
pub mod schedule;
pub mod todo;
pub mod export;
pub mod cards;
