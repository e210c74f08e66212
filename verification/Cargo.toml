[package]
name = "gameboy_emulator"
version = "0.1.0"
edition = "2021"
publish = false

[dependencies]
drawille = "*"
minifb = "*"
structopt = "*"
termion = "*"
