//! Sealed Kubernetes Secrets.
//!
//! Secret values are encrypted with age to a public key that the controller of a cluster
//! publishes; the controller holds the private key and turns the sealed resource back into
//! the ordinary Secret. This crate is the part of that which decides: what is encrypted and
//! to whom, which requests go to the cluster and in which order, and what each reply leads
//! to. Talking to the cluster, files and the terminal is left to the caller.

pub mod age_keys;
pub mod cli;
pub mod cluster;
pub mod controller;
pub mod encryption;
pub mod laws;
pub mod resources;
pub mod sealing;
pub mod secret_file;
pub mod string_map;
pub mod types;
pub mod unsealing;
