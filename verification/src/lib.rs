//! Verified core of a small REST API service: a user store with
//! registration and credential checks, bcrypt-hashed password records,
//! JSON-web-token issuing and validation, and the decisions that the HTTP
//! handlers make from them.

pub mod api;
pub mod config;
pub mod database;
pub mod password;
mod server_state;
pub mod token;

pub use server_state::ServerState;
