[package]
name = "phrase_explorer"
version = "0.1.0"
edition = "2021"
publish = false

[dependencies]
chrono = "0.4"
clap = { version = "4", features = ["derive"] }
git2 = { version = "*", default-features = false }
rayon = "1"
tokio = { version = "1", features = ["macros", "rt-multi-thread"] }
