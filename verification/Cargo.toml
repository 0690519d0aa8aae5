[package]
name = "single_pool"
version = "0.1.0"
edition = "2021"
rust-version = "1.95.0"
publish = false

[dependencies]
solana-rpc-client = { version = "=4.2.2", default-features = false }
solana-rpc-client-api = "=4.2.2"
solana-instruction = { version = "*", default-features = false, features = ["std"] }
solana-keypair = { version = "*", default-features = false }
solana-pubkey = { version = "*", features = ["sha2", "curve25519"] }
solana-signer = { version = "*", default-features = false }
solana-transaction = { version = "*", default-features = false, features = ["bincode"] }
tokio = { version = "*", default-features = false, features = ["rt"] }

[dev-dependencies]
bincode = "=1.3.3"
solana-stake-interface = { version = "*", features = ["bincode"] }
solana-system-interface = { version = "*", features = ["bincode"] }
solana-sdk-ids = "*"
solana-program-pack = "*"
spl-token-interface = "*"
