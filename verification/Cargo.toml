[package]
name = "kloni"
version = "0.1.0"
edition = "2021"
publish = false

[dependencies]
anyhow = "1"
attohttpc = { version = "*", features = ["json"] }
directories = "*"
git2 = "*"
regex = "1"
serde = { version = "1", features = ["derive"] }
skim = "0.10"
thiserror = "1"
toml = "*"
