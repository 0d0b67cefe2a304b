[package]
name = "frost_aleo"
version = "0.1.0"
edition = "2021"
publish = false

[dependencies]
rand = "*"
snarkvm-console-account = "*"
snarkvm-console-network = "*"
snarkvm-console-program = "*"
snarkvm-console-types = "*"
snarkvm-console-types-scalar = "*"
