[package]
name = "eemod"
version = "0.1.0"
edition = "2021"
publish = false

[dependencies]
sha2 = "=0.10.9"
aes-gcm = "=0.10.3"
ring-compat = "=0.8.0"
num-bigint = "=0.4.8"
rand = "=0.8.8"
uuid = "=1.29.1"
hex = "=0.4.3"
prost = "=0.14.4"
dcf = { version = "=0.5.2", features = ["prg"] }
dpf-fss = { version = "=0.6.1", features = ["prg"] }
fss-types = "=0.1.2"
group-math = "=0.2.4"
double-ratchet = "=0.1.0"
double-ratchet-signal = "=0.1.3"
rand_os = "=0.1.3"
anyhow = "=1.0.104"
async-trait = "=0.1.92"
tokio = { version = "=1.54.1", features = ["rt-multi-thread", "macros"] }
tonic = "=0.14.9"
rocksdb = { version = "=0.25.0", default-features = false }
