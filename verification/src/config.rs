//! The user's configuration: its data model, its defaults, where it is
//! kept, and the rules by which a stored document becomes a complete
//! configuration.

pub mod document;
pub mod error;
pub mod file;
pub mod location;
