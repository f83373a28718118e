[package]
name = "countdown_prompt"
version = "0.1.0"
edition = "2021"
publish = false

[dependencies]
tokio = { version = "1", features = ["full"] }
libc = "0.2"
termios = "0.3"
nix = { version = "*", features = ["ioctl"] }
