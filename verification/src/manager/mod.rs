pub mod models;
pub mod storage;
pub mod commands;
pub mod health;
pub mod dashboard;
pub mod rdp_servers;
pub mod config;
pub mod web;
pub mod api;
pub mod state;
pub mod pages;
