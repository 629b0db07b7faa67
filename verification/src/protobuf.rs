//! Protocol messages exchanged with clients.

pub mod features;
pub mod shared;
