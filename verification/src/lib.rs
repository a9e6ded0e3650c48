//! Learning-time management: categories, timers, review scheduling rules.
pub mod text;
pub mod clock;
pub mod numbers;
pub mod data;
pub mod learning;
pub mod timer;
pub mod obsidian;
pub mod gui;
pub mod display;
pub mod app_state;
pub mod schedule_form;
pub mod cli;
pub mod training;
pub mod tabs;
pub mod app_model;
pub mod laws;
