[package]
name = "quiche_mio_runner"
version = "0.1.0"
edition = "2021"
publish = false

[dependencies]
libc = "0.2"
log = "0.4"
mio = { version = "1", features = ["os-poll", "net", "os-ext"] }
nix = { version = "0.29", features = ["socket", "uio", "net"] }
slab = "0.4"
