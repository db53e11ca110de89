[package]
name = "diesel_repository"
version = "0.1.0"
edition = "2021"
publish = false

[dependencies]
diesel = "1.4"
