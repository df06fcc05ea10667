[package]
name = "timesheet_gen"
version = "0.1.0"
edition = "2021"
publish = false

[dependencies]
bson = "2"
chrono = "0.4"
dirs = "4"
exitcode = "1"
git2 = { version = "0.14", default-features = false }
mongodb = "2"
random-string = "1"
regex = "1"
serde = { version = "1", features = ["derive"] }
serde_json = "1"
tokio = { version = "1", features = ["macros", "rt-multi-thread"] }
