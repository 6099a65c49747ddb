//! A process-local configuration manager: independently typed sections are
//! registered once, then loaded from and saved to one document in a chosen
//! wire format.

pub mod error;
pub mod format;
pub mod laws;
pub mod manager;
pub mod model;
pub mod registry;
pub mod section;
pub mod tree;

pub use crate::error::KonfigError;
pub use crate::manager::{KonfigManager, KonfigOptions};
pub use crate::section::KonfigSection;
