[package]
name = "sector_update"
version = "0.1.0"
edition = "2021"
publish = false

[dependencies]
anyhow = "=1.0.104"
bellperson = { version = "=0.22.1", default-features = false }
bincode = "=1.3.3"
blstrs = "=0.5.0"
filecoin-hashers = { version = "=7.0.0", default-features = false, features = ["poseidon", "sha256"] }
generic-array = "=0.14.7"
log = "=0.4.35"
merkletree = "=0.22.1"
storage-proofs-core = { version = "=12.0.0", default-features = false }
storage-proofs-porep = { version = "=12.0.0", default-features = false }
storage-proofs-update = { version = "=12.0.0", default-features = false }
