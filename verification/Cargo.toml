[package]
name = "texcreate"
version = "3.1.0"
edition = "2021"
publish = false

[dependencies]
dirs = "=7.0.0"
futures = "=0.3.34"
git2 = { version = "=0.21.0", default-features = false }
open = "=5.4.5"
reqwest = "=0.11.27"
rocket = "=0.5.2"
serde = { version = "=1.0.229", features = ["derive"] }
serde_json = "=1.0.154"
structopt = "=0.3.26"
termcolor = "=1.4.1"
texc_v3_compiler_conf = "=0.1.0"
texcore = { version = "=0.5.4", features = ["texcreate_template"] }
thiserror = "=2.0.21"
tokio = { version = "=1.54.1", features = ["full"] }
toml = { version = "=0.7.8", features = ["preserve_order"] }
walkdir = "=2.5.0"
zip = { version = "=0.6.6", default-features = false }
