[package]
name = "callpu"
version = "0.1.0"
edition = "2021"
publish = false

[dependencies]
anyhow = "=1.0.104"
chrono = "=0.4.45"
dptree = "=0.5.1"
rand = "=0.10.3"
reqwest = { version = "=0.12.28", default-features = false, features = ["http2", "rustls-tls"] }
sysinfo = "=0.39.6"
# teloxide-core takes takecell 0.1, and 0.1.2 asks for a newer compiler than
# the rest of the tree does; nothing here calls it.
takecell = "<0.1.2"
teloxide = { version = "=0.17.0", default-features = false, features = ["macros", "rustls", "ctrlc_handler"] }
tokio = { version = "=1.54.1", features = ["rt-multi-thread", "macros", "time", "sync"] }
tracing = "=0.1.44"
tracing-subscriber = { version = "=0.3.23", features = ["chrono"] }
