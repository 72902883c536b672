[package]
name = "krb_mic"
version = "0.1.0"
edition = "2021"
publish = false

[dependencies]
picky-krb = "=0.12.5"
picky-asn1-der = "=0.5.7"
oid = "=0.2.1"
serde = "=1.0.229"
