[package]
name = "lixiv_backend"
version = "0.1.0"
edition = "2021"
publish = false

[dependencies]
petgraph = { version = "=0.8.3", default-features = false, features = ["stable_graph"] }
serde_json = "=1.0.154"
async-graphql = { version = "=7.2.1", features = ["log"] }
async-graphql-axum = "=7.2.1"
axum = "=0.8.9"
chrono = "=0.4.45"
http = "=1.5.0"
hyper = "=1.12.0"
sqlx = { version = "=0.9.0", default-features = false, features = ["postgres", "runtime-tokio", "chrono", "json", "derive"] }
tokio = { version = "=1.54.1", features = ["macros", "rt-multi-thread", "signal", "net"] }
tower-http = { version = "=0.7.1", features = ["cors"] }
tracing = "=0.1.44"
tracing-subscriber = { version = "=0.3.23", features = ["env-filter"] }
