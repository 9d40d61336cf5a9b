//! What entity payloads have in common.

pub mod api_entity;
