[package]
name = "swc-plugin-gem"
version = "0.1.0"
edition = "2021"
publish = false

[dependencies]
indexmap = { version = "2", features = ["serde"] }
node-resolve = "*"
once_cell = "1"
pathdiff = "*"
regex = "1"
serde = { version = "1", features = ["derive"] }
serde_json = "1"
swc_core = { version = "*", features = ["ecma_plugin_transform", "ecma_quote"] }
typed-path = "*"
zed_extension_api = "*"
