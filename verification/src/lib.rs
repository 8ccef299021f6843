//! Chain parameters of a proposer-builder-separation client, and the errors
//! that checking a relay's response can report.

pub mod chain_file;
pub mod constants;
pub mod document;
pub mod error;
pub mod pbs;
pub mod signature;
pub mod text;
pub mod types;
