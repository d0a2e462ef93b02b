[package]
name = "chess_multiplayer"
version = "0.1.0"
edition = "2021"
publish = false

[dependencies]
piston = "1.0.0"
