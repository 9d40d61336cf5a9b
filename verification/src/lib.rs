//! A configuration-driven REST API generator: entity schemas, pluggable
//! datasources, a relational mapping engine, per-entity handler registries and
//! the request router that ties them together.

pub mod api;
pub mod config;
pub mod connection;
pub mod data;
pub mod error;
pub mod filemanager;
pub mod gui;
pub mod json;
pub mod request_manager;
pub mod serialization;
pub mod server;
pub mod string_map;
pub mod text;
