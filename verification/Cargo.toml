[package]
name = "tavla_api"
version = "0.1.0"
edition = "2021"
publish = false

[dependencies]
rand = "*"
sha1 = "*"
chrono = "*"
base64 = "*"
anyhow = "*"
serde = { version = "*", features = ["derive"] }
serde_json = "*"
tokio = { version = "*", features = ["sync", "time", "rt", "macros"] }
parking_lot = "*"
axum = "*"
axum-extra = { version = "*", features = ["typed-header"] }
jsonwebtoken = "*"
redis = { version = "*", features = ["tokio-comp"] }
bb8-redis = "*"
r2d2 = "*"
uuid = { version = "*", features = ["v4"] }
tracing = "*"
tracing-subscriber = { version = "*", features = ["env-filter"] }
thiserror = "*"
validator = { version = "*", features = ["derive"] }
utoipa = "*"
strum = { version = "*", features = ["derive"] }
time = "*"
png = "*"
tiny-skia = "*"
ab_glyph = "*"
once_cell = "*"
futures = "*"
dotenvy = "*"
log = "*"
