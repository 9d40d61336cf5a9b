//! Datasources: the capability interface, its errors and the backends.

pub mod data_error;
pub mod datasource;
pub mod datasource_factory;
