[package]
name = "rsc_cache"
version = "0.1.0"
edition = "2021"
publish = false

[dependencies]
sha2 = "*"
prometheus = { version = "*", default-features = false }
lazy_static = "*"
async-trait = "*"
sea-orm-migration = { version = "*", default-features = false }
