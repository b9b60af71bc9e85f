[package]
name = "joint_connector"
version = "0.1.0"
edition = "2021"
publish = false

[dependencies]
log = "=0.4.34"
nalgebra = "0.34"
rapier3d = "=0.30.1"
snafu = "=0.9.2"
