//! Control logic of a small web panel that runs a Terraria dedicated server:
//! the JSON answers of its HTTP API, the token check that guards it, the
//! rendering of the server's `config.txt`, and the state of the running game.
pub mod infra;
pub mod text;
pub mod web;
