[package]
name = "radb_client"
version = "0.1.0"
edition = "2021"
publish = false

[dependencies]
regex = "1"
java-properties = "2"
rustix = { version = "0.38", features = ["fs"] }
mac_address = "1"
uuid = { version = "1", features = ["v4"] }
file-mode = "*"
simple-cmd = "*"
which = "*"
crossbeam-channel = "0.5"
cached = { version = "*", default-features = false }
cidr-utils = "*"
itertools = "*"
threadpool = "1"
num_cpus = "1"
chrono = { version = "0.4", default-features = false, features = ["clock"] }
anyhow = "1"
thiserror = "*"
image = { version = "*", default-features = false, features = ["png"] }
arboard = "*"
