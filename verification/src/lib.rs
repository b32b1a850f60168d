//! The decision logic of the OptiStor web server: project configuration
//! completeness, the engine solve protocol, token claims and key sets,
//! tenant scoping, and the dashboard layout.

pub mod text;
pub mod config;
pub mod config_laws;
pub mod auth;
pub mod engine;
pub mod db;
pub mod projects;
pub mod ui;
