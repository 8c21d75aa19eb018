[package]
name = "irpc"
version = "0.1.0"
edition = "2021"
publish = false

[dependencies]
async-trait = "=0.1.92"
defmt = "*"
embassy-stm32 = { version = "*", features = ["stm32g431cb"] }
thiserror = "=1.0.69"
tokio = { version = "=1.54.1", default-features = false, features = ["sync", "time", "rt"] }
tracing = { version = "=0.1.44", default-features = false, features = ["std"] }

[dev-dependencies]
postcard = { version = "=1.1.3", default-features = false, features = ["use-std"] }
serde = { version = "=1.0.229", default-features = false, features = ["std"] }
