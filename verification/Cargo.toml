[package]
name = "mpdview"
version = "0.1.0"
edition = "2021"
publish = false

[dependencies]
mpd = "=0.1.0"
termion = "1"
tui = { version = "=0.19.0", default-features = false, features = ["termion"] }
