pub mod commands;
pub mod config;
pub mod dice;
pub mod embed;
pub mod handler;
pub mod logging;
pub mod text;
pub mod webhook;
