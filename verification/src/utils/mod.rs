//! Helpers shared by the rest of the crate.
pub mod ip;
pub mod text;
pub mod ui;
