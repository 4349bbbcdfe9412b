[package]
name = "reassociate"
version = "0.1.0"
edition = "2021"
publish = false

[dependencies]
async-std = "=1.13.2"
async-trait = "=0.1.92"
crossterm = "=0.25.0"
darling = "=0.20.3"
surrealdb = { version = "=1.0.0", default-features = false, features = ["kv-mem"] }
tui = "=0.19.0"
