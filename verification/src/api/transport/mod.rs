//! What a transport needs around the router: building requests, bounding the
//! time of a dispatch, and turning results into wire responses.

pub mod catch_all;
pub mod rocket_adapter;
