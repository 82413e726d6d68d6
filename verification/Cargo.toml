[package]
name = "mcp_todolist"
version = "0.1.0"
edition = "2021"
publish = false

[dependencies]
anyhow = "*"
dotenvy = "*"
serde = { version = "*", features = ["derive"] }
serde_json = "*"
tokio = { version = "*", features = ["macros", "rt-multi-thread", "signal"] }
tracing = "*"
tracing-subscriber = { version = "*", features = ["env-filter", "fmt"] }
rocket = { version = "*", features = ["json"] }
rmcp = { version = "*", features = ["server", "transport-io"] }
utoipa = "*"
utoipa-swagger-ui = { version = "*", default-features = false, features = ["rocket", "vendored"] }
diesel = { version = "*", features = ["sqlite", "r2d2"] }
libsqlite3-sys = { version = "*", features = ["bundled"] }
validator = { version = "*", features = ["derive"] }
