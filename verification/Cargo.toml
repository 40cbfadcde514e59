[package]
name = "movie_review_program"
version = "0.1.0"
edition = "2021"
publish = false

[dependencies]
solana-program = "*"
spl-token = { version = "*", features = ["no-entrypoint"] }
spl-associated-token-account = { version = "*", features = ["no-entrypoint"] }

[dev-dependencies]
borsh = "*"
