//! The description of a contract: its types, traits and structs, and the
//! parser that builds it from Rust source.

pub mod desc;
pub mod handler;
pub mod imp;
pub mod parser;
pub mod syntax;
pub mod types;
