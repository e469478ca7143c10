[package]
name = "trezor"
version = "0.1.0"
edition = "2021"
publish = false

[dependencies]
ethcore-bigint = "=0.2.1"
hidapi = { version = "=2.6.4", default-features = false, features = ["linux-native-basic-udev"] }
parking_lot = "=0.13.0"
protobuf = "=3.7.2"
rlp = "=0.2.1"
serde_json = "=1.0.154"
