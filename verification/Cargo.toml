[package]
name = "lending_library"
version = "0.1.0"
edition = "2021"
publish = false

[dependencies]
actix-web = "4"
chrono = "0.4"
diesel = { version = "2", features = ["sqlite", "r2d2"] }
dotenvy = "0.15"
serde = { version = "1", features = ["derive"] }
