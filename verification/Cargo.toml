[package]
name = "dnd_tui"
version = "0.1.0"
edition = "2021"
publish = false

[dependencies]
tui = { version = "0.19", default-features = false, features = ["termion"] }
termion = "1.5"
ejdb = "0.4"
serde = { version = "1", features = ["derive"] }
serde_json = "1"
log = "0.4"
simple-logging = "2"
dotenv = "0.15"
