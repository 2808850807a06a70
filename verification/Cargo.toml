[package]
name = "on_a_roll"
version = "0.1.0"
edition = "2021"
publish = false

[dependencies]
ratatui = "0.29"
diesel = { version = "2.2", features = ["sqlite", "returning_clauses_for_sqlite_3_35"] }
diesel-derive-enum = { version = "2.1", features = ["sqlite"] }
dotenvy = "0.15"
clap = { version = "4", features = ["derive"] }
