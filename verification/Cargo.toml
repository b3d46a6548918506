[package]
name = "pallet_fluence"
version = "0.1.0"
edition = "2021"
publish = false

[dependencies]
ed25519 = "=1.5.3"
ed25519-dalek = "=1.0.1"
frame-support = "=3.0.0"
frame-system = "=3.0.0"
scale-info = { version = "=2.11.6", features = ["derive"] }
sp-io = "=3.0.0"
# Not used by the code. FRAME 3.0 builds only with a syn that still exports
# `syn::group`, and only with the zeroize that curve25519-dalek 3 accepts.
syn = "=1.0.58"
zeroize = "=1.3.0"
