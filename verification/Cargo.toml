[package]
name = "webscale"
version = "0.1.0"
edition = "2021"
publish = false

[dependencies]
rusqlite = { version = "*", features = ["bundled"] }
actix-web = { version = "*", default-features = false, features = ["macros"] }
serde = { version = "*", features = ["derive"] }
