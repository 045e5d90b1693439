//! rsbind: bind Rust traits to other languages.
//!
//! The library reads the contract traits and structs of a Rust crate, maps
//! their types onto the types of the target languages and plans the code and
//! the build steps of the bridge and artifact projects.

pub mod errors;
pub mod text;
pub mod ast;
pub mod config;
pub mod gen;
pub mod process;
