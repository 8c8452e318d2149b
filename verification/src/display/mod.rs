pub mod state;
pub mod status;
pub mod config;
pub mod events;
pub mod health;
pub mod app;
pub mod settings;
pub mod credentials;
