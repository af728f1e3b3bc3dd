[package]
name = "ic_cert"
version = "0.1.0"
edition = "2021"
publish = false

[dependencies]
ic-certification = "=4.0.0"
serde_cbor = "=0.11.2"
serde_bytes = "=0.11.19"
sha2 = "=0.10.9"
miracl_core_bls12381 = { version = "=4.2.2", default-features = false, features = ["std", "allow_alt_compress"] }
candid = "=0.10.37"
ic-agent = "=0.49.2"
tokio = { version = "=1.53.2", features = ["macros", "rt", "rt-multi-thread"] }
