//! Authentication core of a small game backend: password hashing, signed
//! session tokens, the cookie that carries them, and the decisions the HTTP
//! handlers take once the credential store has answered.
//!
//! Every function here works on plain values. Reading requests, talking to the
//! store and writing responses is left to the program that embeds the library.

pub mod models;
pub mod infra;
pub mod api;
pub mod text;
