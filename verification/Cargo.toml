[package]
name = "gl_cli"
version = "0.1.0"
edition = "2021"
publish = false

[dependencies]
clap = { version = "=3.2.25", features = ["derive", "cargo"] }
rustyline = "=9.1.2"
rustyline-derive = "=0.6.0"
termcolor = "=1.4.1"
