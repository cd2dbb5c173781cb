//! Verified core of npins: the command line model, importers for Niv and lon
//! lock files, the pin model they produce, and the decisions around the Nix
//! helper programs.

pub mod text;
pub mod pin;
pub mod import;
pub mod pins;
pub mod opts;
pub mod nix;
