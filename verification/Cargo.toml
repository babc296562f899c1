[package]
name = "relm4_icons"
version = "0.1.0"
edition = "2021"
publish = false

[dependencies]
gtk4 = "=0.11.5"
toml = "=1.1.7"

[dependencies.gvdb]
version = "=0.10.1"
features = ["gresource"]

[dependencies.serde]
version = "=1.0.229"
features = ["derive"]
