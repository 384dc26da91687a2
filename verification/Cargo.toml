[package]
name = "solana-challenge"
version = "0.1.0"
edition = "2021"
publish = false

[dependencies]
anchor-lang = "=0.26.0"
anchor-spl = { version = "=0.26.0", default-features = false, features = ["token"] }
mpl-token-metadata = { version = "=1.13.2", features = ["no-entrypoint"] }
# Not called directly: pinned so that mpl-token-metadata's own spl-token and spl-memo
# build against the same solana-program 1.16 as the crates above (their later patch
# releases move to solana-program 2, on which mpl-token-metadata 1.13.2 does not compile).
spl-token = "=4.0.0"
spl-memo = "=4.0.0"
