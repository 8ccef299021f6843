//! The builder API as this client sees it.

pub mod error;
