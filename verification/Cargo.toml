[package]
name = "projectm_sdl"
version = "0.1.0"
edition = "2021"
publish = false

[dependencies]
clap = { version = "=4.6.7", features = ["derive", "env"] }
confique = { version = "=0.4.0", features = ["toml", "yaml", "json5"] }
projectm = "=3.1.2"
sdl3 = "=0.20.0"
