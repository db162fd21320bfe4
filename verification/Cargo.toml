[package]
name = "warp_tui"
version = "0.1.0"
edition = "2021"
publish = false

[dependencies]
anyhow = "1"
async-trait = "0.1"
log = "0.4"
parking_lot = "0.12"
pathfinder_geometry = "*"
