//! Handlers of custom routes.

pub mod routes;
