//! Requests that the desktop client sends to a running API.

pub mod curl;
pub mod request;
