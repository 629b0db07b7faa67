//! Messages shared between features.

pub mod receiver;
