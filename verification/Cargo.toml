[package]
name = "account_view"
version = "0.1.0"
edition = "2021"
publish = false

[dependencies]
sha2-const-stable = "=0.1.0"
solana-program-error = "=3.0.1"
solana-define-syscall = "*"
num-traits = "=0.2.19"
rand = "=0.8.8"
