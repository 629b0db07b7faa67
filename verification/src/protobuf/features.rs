//! Messages of the optional features.

pub mod mixer;
