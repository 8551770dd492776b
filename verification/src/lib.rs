pub mod calendar;
pub mod commands;
pub mod config;
pub mod handlers;
pub mod text;
