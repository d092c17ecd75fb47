[package]
name = "conbatt"
version = "0.1.0"
edition = "2021"
publish = false

[dependencies]
confy = "*"
dirs = "*"
serde = "*"
serde_derive = "*"
zbus = "3"
zvariant = "3"
