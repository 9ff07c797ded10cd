[package]
name = "fixrs"
version = "0.1.0"
edition = "2021"
publish = false

[dependencies]
bitcode = "*"
clap = { version = "4", features = ["derive"] }
clap_args = "*"
compio = "*"
current_platform = "*"
dirs = "*"
ignore = "*"
memchr = "2"
museair = "*"
proc-macro2 = { version = "1", features = ["span-locations"] }
syn = { version = "2", features = ["full", "visit", "extra-traits"] }
thiserror = "2"
toml = "*"
