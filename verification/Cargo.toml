[package]
name = "tornado"
version = "0.1.0"
edition = "2021"
publish = false

[dependencies]
halo2_gadgets = "=0.6.0"
halo2_proofs = "=0.4.0"
sinsemilla = { version = "=0.2.0", features = ["test-dependencies"] }
