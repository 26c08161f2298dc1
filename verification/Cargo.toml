[package]
name = "subspace_node"
version = "0.1.0"
edition = "2021"
publish = false

[dependencies]
derive_more = "=0.99.20"
frame-support = { version = "=38.2.0", default-features = false, features = ["std"] }
futures = "=0.3.34"
lru = "=0.7.8"
pallet-balances = { version = "=39.0.1", default-features = false, features = ["std"] }
pallet-transaction-payment = { version = "=38.0.2", default-features = false, features = ["std"] }
parity-scale-codec = { version = "3", features = ["derive"] }
prioritized-metered-channel = "=0.2.0"
smallvec = "=1.16.4"
sp-api = "=34.0.0"
sp-blockchain = "37"
sp-consensus-slots = "=0.40.1"
sp-runtime = "=39.0.5"
tracing = "0.1"
