[package]
name = "mesh2d"
version = "0.1.0"
edition = "2021"
publish = false

[dependencies]
bevy_app = "=0.6.0"
bevy_asset = "=0.6.0"
bevy_ecs = "=0.6.1"
bevy_math = "=0.6.0"
bevy_reflect = "=0.6.0"
bevy_render = "=0.6.1"
bevy_transform = "=0.6.0"
bitflags = "=1.3.2"
# Nothing here calls darling. The derive crates of bevy use syn's `full`
# feature without asking for it; darling asks for it, and the two share one
# build of syn, so with this line they compile.
darling = "=0.13.4"
