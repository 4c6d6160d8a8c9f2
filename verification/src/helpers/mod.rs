//! Helpers that speak to single companion modules.

pub mod metadata;
