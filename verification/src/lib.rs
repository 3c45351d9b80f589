//! Credential and profile consistency subsystem for a small user directory.
//!
//! The library issues and verifies signed, time-bounded identity tokens,
//! enforces the one-account-per-email rule at signup, authenticates
//! credentials at login, applies whole-set badge-field updates, and resolves
//! a credential-free projection of a stored record. All store round trips
//! and transport concerns live outside the library; every operation here is
//! a function of a directory snapshot and plain inputs.

pub mod directory;
pub mod errors;
pub mod laws;
pub mod profiles;
pub mod registrar;
pub mod token;
