[package]
name = "inframint"
version = "0.1.0"
edition = "2021"
publish = false

[dependencies]
axum = { version = "0.7", default-features = false, features = ["http1", "json", "query", "tokio"] }
chrono = { version = "0.4", default-features = false, features = ["clock", "std"] }
config = { version = "0.14", default-features = false, features = ["toml"] }
dotenvy = "0.15"
ethers-core = { version = "2.0", default-features = false }
ethers-providers = { version = "2.0", default-features = false }
futures-util = { version = "0.3", default-features = false, features = ["std"] }
jsonwebtoken = { version = "9", default-features = false }
prost = "0.12"
redis = { version = "0.24", default-features = false, features = ["tokio-comp"] }
serde = { version = "1", features = ["derive"] }
serde_json = "1"
sqlx = { version = "0.7", default-features = false, features = ["runtime-tokio", "postgres", "uuid", "chrono"] }
thiserror = "1"
tokio = { version = "1", features = ["macros", "rt-multi-thread", "net", "sync", "time"] }
tonic = { version = "0.11", default-features = false, features = ["transport", "codegen", "prost"] }
tower = { version = "0.4", default-features = false }
tower-http = { version = "0.5", default-features = false, features = ["cors"] }
tracing = "0.1"
tracing-subscriber = { version = "0.3", default-features = false, features = ["env-filter", "fmt"] }
uuid = { version = "1", default-features = false, features = ["std"] }
