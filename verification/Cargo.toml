[package]
name = "rusty-songs"
version = "0.1.0"
edition = "2021"
publish = false

[dependencies]
crossterm = "0.25"
dotenv = "0.15"
reqwest = { version = "0.11", features = ["json"] }
serde = { version = "1", features = ["derive"] }
symphonia = { version = "0.5", features = ["mp3"] }
tokio = { version = "1", features = ["macros", "rt-multi-thread", "sync"] }
tui = "0.19"
