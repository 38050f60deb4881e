[package]
name = "ckb_vm_interpreter"
version = "0.1.0"
edition = "2021"
publish = false

[dependencies]
ckb-vm = "*"
sha2 = "*"
clap = { version = "*", features = ["derive"] }
dotenv = "*"
serde = { version = "*", features = ["derive"] }
serde_json = "*"

[dev-dependencies]
hex = "*"
