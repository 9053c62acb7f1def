[package]
name = "rustedbot"
version = "0.1.0"
edition = "2021"
publish = false

[dependencies]
chrono = "0.4"
fern = { version = "0.6", features = ["colored"] }
log = "0.4"
rand = "0.8"
regex = "1"
reqwest = "0.12"
rusqlite = "0.32"
scryfall = "*"
statrs = "0.16"
tempfile = "3"
tokio = { version = "1", features = ["macros", "rt-multi-thread", "sync"] }
twitch-irc = "5"
