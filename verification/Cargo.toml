[package]
name = "rsbind"
version = "0.1.0"
edition = "2021"
publish = false

[dependencies]
syn = { version = "1", features = ["full", "extra-traits"] }
proc-macro2 = "1"
quote = "1"
rstgen = "*"
toml = "0.5"
serde = { version = "1", features = ["derive"] }
serde_json = "1"
fs_extra = "1"
error-chain = "0.12"
cbindgen = "*"
ndk-build = "*"
zip = "*"
