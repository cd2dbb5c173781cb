//! Import pins from other lockfile managers

pub mod error;
pub mod lon;
pub mod niv;

pub use error::{ImportError, ImportErrorView};
pub use lon::Source as LonPin;
pub use niv::NivPin;
