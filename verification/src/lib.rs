//! The verified core of Project Fate, a small multiplayer game: a registry
//! that mints identifiers for users and games, the messages that clients and
//! the server exchange, and what the server does with each datagram.
//!
//! - `manager` is the registry, and `user` and `game` are what it holds.
//! - `message` has the requests and the answers, and their form on the wire;
//!   `json` and `text` say what it relies on in `rustc_serialize` and in the
//!   standard library.
//! - `server` answers a datagram, and `commander` leads the dialogue of the
//!   interactive client.
//! - `picking` reads the identifier of an object from a colour.

use vstd::prelude::*;

pub mod commander;
pub mod game;
pub mod json;
pub mod manager;
pub mod message;
pub mod picking;
pub mod server;
pub mod text;
pub mod user;

verus! {

/// Codename of the project.
pub const PROJECT_NAME: &'static str = "Project Fate";

} // verus!
