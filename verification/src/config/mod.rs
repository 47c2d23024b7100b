//! A configuration: its sources and the layers loaded from them.

pub mod async_builder;
pub mod async_config;
pub mod builder;
pub mod config;
pub mod construct;
pub mod error;
pub mod laws;
pub mod layers;
