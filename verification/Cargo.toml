[package]
name = "ixy_ci"
version = "0.1.0"
edition = "2021"
publish = false

[dependencies]
actix-files = "0.5"
actix-rt = "1"
actix-web = "3"
byteorder = "=1.5.0"
chrono = "0.4"
clap = "2"
crossbeam-utils = "0.8"
env_logger = "0.8"
etherparse = "=0.9.0"
fallible-iterator = "0.2"
futures = "0.3"
hex = "=0.4.3"
hubcaps = "0.6"
libc = "0.2"
log = "0.4"
openstack = "0.4"
pcap-file = "=1.1.1"
reqwest = { version = "0.10", features = ["blocking"] }
ring = "=0.16.20"
serde = { version = "1", features = ["derive"] }
serde_json = "1"
snafu = "0.6"
ssh2 = "0.9"
toml = "0.5"
url = "2"
waiter = "0.1"
