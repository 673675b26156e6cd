[package]
name = "cnpj_import"
version = "0.1.0"
edition = "2021"
publish = false

[dependencies]
bigdecimal = "0.1"
chrono = "0.4"
csv = "1"
diesel = { version = "1.4", features = ["mysql", "chrono", "numeric"] }
dotenv = "0.15"
encoding = "0.2"
structopt = "0.3"
zip = { version = "0.5", default-features = false, features = ["deflate"] }
