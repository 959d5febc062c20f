[package]
name = "geo_bound_voronoi"
version = "0.1.0"
edition = "2021"
publish = false

[dependencies]
clap = { version = "*", features = ["derive"] }
geo = "*"
serde = { version = "*", features = ["derive"] }
serde_json = "*"
voronoice = "*"
