//! Core logic of the tuikk terminal client: configuration defaults, the
//! shared error types, the Docker connection settings and the single
//! process-wide Docker client slot.

pub mod text;
pub mod base_err;
pub mod docker_conn;
pub mod config;
pub mod ext_log;
pub mod base_err_ext;
