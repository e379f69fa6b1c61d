//! Clients of outside services.

pub mod steamgriddb_service;
