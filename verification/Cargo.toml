[package]
name = "sandbox_host"
version = "0.1.0"
edition = "2021"
publish = false

[dependencies]
anyhow = "1"
tokio = { version = "1", features = ["macros", "rt-multi-thread"] }
wasmtime = { version = "=38.0.4", default-features = false, features = ["async", "component-model", "component-model-async", "cranelift", "runtime", "std", "threads"] }
wit-component = "*"

[dev-dependencies]
wat = "*"
wit-parser = "*"
