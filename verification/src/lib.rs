//! Blood on the Clocktower (Trouble Brewing) game engine and table harness.

pub mod auth;
pub mod comms;
pub mod error;
pub mod game;
pub mod harness;
pub mod json;
pub mod mcp_server;
pub mod rng;
pub mod roles;
pub mod store;
pub mod text;
pub mod tools;

pub use error::{GameError, ToolError};
