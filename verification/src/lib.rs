//! The rules of a small API server for RustDesk clients: accounts, sessions,
//! self-registering workstations and address books.

pub mod api;
pub mod auth;
pub mod cli;
pub mod config;
pub mod db;
pub mod document;
pub mod json;
pub mod laws;
pub mod query;
pub mod shim;
pub mod startup;
pub mod tables;
pub mod text;
