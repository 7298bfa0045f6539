//! What holds of the server as a whole.

pub mod access;
pub mod answers;
pub mod books;
pub mod commands;
pub mod devices;
pub mod listings;
pub mod numbers;
pub mod pages;
pub mod printing;
pub mod rows;
pub mod sessions;
pub mod state;
pub mod tags;
pub mod texts;
pub mod turns;
pub mod views;
pub mod wire;
