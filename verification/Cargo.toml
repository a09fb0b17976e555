[package]
name = "hostwall"
version = "0.1.0"
edition = "2021"
publish = false

[dependencies]
anyhow = "=1.0.104"
chrono = "=0.4.45"
libc = "=0.2.190"
nfq = "=0.2.5"
nftables = "=0.6.3"
pnet = "=0.35.0"
rand = "=0.10.3"
tokio = { version = "=1.53.2", features = ["sync", "rt-multi-thread", "macros", "time"] }
