pub mod text;
pub mod net;
pub mod error;
pub mod config;
pub mod module;
pub mod service;
pub mod paths;
pub mod app;
