[package]
name = "dodopayments"
version = "0.1.0"
edition = "2021"
publish = false

[dependencies]
argon2 = "=0.5.3"
async-trait = "=0.1.92"
axum = "=0.7.9"
config = { version = "=0.14.1", default-features = false, features = ["toml"] }
diesel = { version = "=2.2.12", default-features = false, features = ["postgres_backend", "time"] }
diesel-async = { version = "=0.5.2", features = ["postgres", "deadpool"] }
error-stack = "=0.5.0"
# Named by no file here: diesel-async 0.5.2 uses the `try_join` macro of
# futures-util without asking for the feature that has it, and builds only
# where another package of the build turns the default features on.
futures-util = "=0.3.34"
hyper = "=1.12.0"
jsonwebtoken = "=9.3.1"
moka = { version = "=0.12.16", features = ["sync"] }
nanoid = "=0.4.0"
once_cell = "=1.21.4"
regex = "=1.13.1"
serde = { version = "=1.0.229", features = ["derive"] }
serde_json = "=1.0.154"
serde_path_to_error = "=0.1.20"
thiserror = "=1.0.69"
time = "=0.3.55"
tokio = { version = "=1.54.1", features = ["macros", "rt-multi-thread", "net", "sync"] }
tower = { version = "=0.5.3", features = ["buffer", "limit", "load-shed", "util"] }
tower-http = { version = "=0.6.11", features = ["trace", "cors"] }
tracing = "=0.1.44"
tracing-appender = "=0.2.5"
tracing-subscriber = { version = "=0.3.23", features = ["env-filter", "json", "time"] }
uuid = { version = "=1.29.0", features = ["v7"] }
