//! Authentication and authorization core of a small content API: bearer
//! tokens, account checks, ownership rules and post slugs.

pub mod api;
pub mod gate;
pub mod password;
pub mod slug;
pub mod store;
pub mod token;
