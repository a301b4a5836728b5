//! What travels between the handlers and the credential store.

pub mod dto;
pub mod password;
pub mod user_id;
