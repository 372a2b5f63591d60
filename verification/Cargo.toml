[package]
name = "post_store"
version = "0.1.0"
edition = "2021"
publish = false

[dependencies]
chrono = "0.4"
diesel = { version = "2", features = ["postgres", "chrono"] }
serde = { version = "1", features = ["derive"] }
