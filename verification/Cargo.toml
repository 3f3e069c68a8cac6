[package]
name = "mongoose"
version = "0.1.0"
edition = "2021"
publish = false

[dependencies]
anyhow = "=1.0.104"
chrono = "=0.4.45"
fitsio = { version = "=0.21.10", features = ["fitsio-src"] }
fitsio-sys = { version = "=0.5.7", features = ["fitsio-src"] }
globset = "=0.4.20"
hifitime = "=3.9.0"
mwalib = { version = "=3.0.2", features = ["cfitsio-static"] }
ndarray = "=0.16.1"
num-complex = "=0.4.6"
rubbl_casatables = "=0.9.0"
structopt = "=0.3.26"
thiserror = "=1.0.69"
