[package]
name = "kratos_flow"
version = "0.1.0"
edition = "2021"
publish = false

[dependencies]
serde_json = "1"
validator = "*"
jsonwebtoken = "9"
chrono = { version = "0.4", default-features = false, features = ["clock"] }
uuid = { version = "1", features = ["v4"] }
serde = { version = "1", features = ["derive"] }
reqwest = { version = "0.12", default-features = false, features = ["json", "rustls-tls"] }
tokio = { version = "1", features = ["sync"] }
actix-web = { version = "4", default-features = false, features = ["macros"] }
actix-cors = "*"
tracing = "0.1"
tracing-subscriber = { version = "0.3", features = ["env-filter"] }
tracing-actix-web = "*"
async-graphql = { version = "7", default-features = false, features = ["graphiql"] }
async-graphql-actix-web = "7"
async-trait = "0.1"
