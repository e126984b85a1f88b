[package]
name = "gc_nes_core"
version = "0.1.0"
edition = "2021"
publish = false

[dependencies]
bit_reverse = "*"
emulator_6502 = "*"
minifb = "*"
structopt = "*"
log = "*"
env_logger = "*"
