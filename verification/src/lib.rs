//! Media server core logic: G.711 (A-law / µ-law) sample coding, the VP8
//! simulcast layer filter, and the mixer feature's protocol messages.

pub mod g711;
pub mod pcma;
pub mod vp8_sim;
pub mod protobuf;
