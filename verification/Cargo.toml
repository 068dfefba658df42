[package]
name = "killswitch"
version = "0.1.0"
edition = "2021"
publish = false

[dependencies]
rand = "0.9"
chrono = "0.4"
clap = { version = "4", features = ["derive"] }
