pub mod state;
pub mod commands;
pub mod scheduler;
pub mod manager;
pub mod ui;
pub mod config;
pub mod firefox;
pub mod app;
pub mod run;
