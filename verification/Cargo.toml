[package]
name = "move_mv_llvm_compiler"
version = "0.1.0"
edition = "2021"
publish = false

[dependencies]
anyhow = "=1.0.104"
clap = { version = "=4.6.7", features = ["derive"] }
move-core-types = "=0.0.3"
