[package]
name = "confdir"
version = "0.1.0"
edition = "2021"
publish = false

[dependencies]
dirs = "=7.0.0"
polyglot = { version = "=0.2.1", features = ["json_fmt", "toml_fmt", "yaml_fmt"] }
serde = "=1.0.229"
snafu = "=0.6.10"
