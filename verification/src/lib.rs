pub mod text;
pub mod civil;
pub mod task;
pub mod config;
pub mod cli;
pub mod project;
pub mod notify;
pub mod sound;
pub mod platform;
pub mod tui;
