[package]
name = "sitegen"
version = "0.1.0"
edition = "2021"
publish = false

[dependencies]
anyhow = "=1.0.104"
chrono = { version = "=0.4.45", features = ["serde"] }
clap = { version = "=4.6.7", features = ["derive"] }
fs_extra = "=1.3.0"
notify = "=4.0.18"
plist = { version = "=1.10.3", features = ["enable_unstable_features_that_may_break_with_minor_version_bumps"] }
pulldown-cmark = { version = "=0.8.0", default-features = false }
serde = { version = "=1.0.229", features = ["derive"] }
serde_derive = "=1.0.229"
syntect = { version = "=4.6.0", default-features = false, features = ["default-fancy"] }
tera = { version = "=1.20.1", default-features = false }
tokio = { version = "=1.54.1", features = ["macros", "rt-multi-thread"] }
toml = "=0.5.11"
warp = "=0.3.7"
