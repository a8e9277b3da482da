[package]
name = "mono-injector-core"
version = "0.1.0"
edition = "2021"
publish = false

[dependencies]
dotnetdll = "*"
humantime = "*"
serde = { version = "1", features = ["derive"] }
serde_json = "1"
toml = "*"
dirs = "*"
directories = "*"
sysinfo = "*"
clap = { version = "4", features = ["derive"] }
thiserror = "*"
console = "*"
indicatif = "*"
