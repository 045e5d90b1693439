//! What the bridge and artifact code generators decide: type mappings,
//! generated lines, lookups and file names.

pub mod mapping;
pub mod swift;
pub mod jni;
pub mod java;
pub mod c_bridge;
pub mod c_file;
pub mod bridge;
pub mod native;
pub mod agreement;
