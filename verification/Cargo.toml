[package]
name = "json_transform"
version = "0.1.0"
edition = "2021"
publish = false

[dependencies]
jq-rs = "*"
jxon = "*"
serde_json = "*"
xmltree = "*"
