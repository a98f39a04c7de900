[package]
name = "gwipt"
version = "0.1.0"
edition = "2021"
publish = false

[dependencies]
git2 = { version = "*", default-features = false }
serde_json = "*"
llm = { version = "*", default-features = false, features = ["openai"] }
tokio = { version = "*", features = ["rt-multi-thread"] }
notify-debouncer-mini = "*"
clap = { version = "*", features = ["derive"] }
time = { version = "*", features = ["macros", "local-offset", "formatting"] }
tracing = "*"
tracing-subscriber = { version = "*", features = ["fmt", "time"] }
