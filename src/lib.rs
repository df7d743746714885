//! A typed client for the application API of a game-server panel: request
//! planning, response decoding and error mapping.

pub mod allocations;
pub mod application;
pub mod body;
pub mod envelope;
pub mod error;
pub mod json;
pub mod laws;
pub mod locations;
pub mod nodes;
pub mod outside;
pub mod rate;
pub mod stamp;
pub mod users;
