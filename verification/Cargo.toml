[package]
name = "rusty_constants"
version = "0.1.0"
edition = "2021"
publish = false

[dependencies]
actix-web = { version = "4", default-features = false, features = ["macros"] }
config = "0.15"
html-escape = "0.2"
serde = { version = "1", features = ["derive"] }
