//! A custom Cargo command that creates Cargo packages set up for the Universal
//! Windows Platform: the command-line argument adapter, the text and manifest
//! transformations, and the file-creation plan of `cargo uwp new`.

pub mod cargo;
pub mod cli;
pub mod data;
pub mod manifest;
pub mod os;
pub mod ops;
pub mod text;
