//! A small multi-user paste store: profiles, pastes with optional short codes, scans over
//! the pastes, and tombstoning of pastes whose time to live has run out. Every operation
//! is verified against a mathematical model of the store (`store::StoreView`).

pub mod laws;
pub mod paste;
pub mod store;
pub mod user;
