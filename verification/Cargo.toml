[package]
name = "dungeon_crawl"
version = "0.1.0"
edition = "2021"
publish = false

[dependencies]
rand = { version = "*", features = ["small_rng"] }
pc-keyboard = "*"
pluggable_interrupt_os = "*"
