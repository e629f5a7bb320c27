//! One-time secret links: an encrypted secret is stored once and disclosed
//! at most once, before its optional expiry.
pub mod codec;
pub mod disclosure;
pub mod error;
pub mod laws;
pub mod state;
pub mod store;
pub mod views;
