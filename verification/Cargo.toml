[package]
name = "lodestone_polygon"
version = "0.1.0"
edition = "2021"
publish = false

[dependencies]
geojson = "=0.24.2"
serde_json = "=1.0.151"
