//! Fixed-width key generation: base-62 encoding, interchangeable integer
//! strategies (uniform random, shared counter, modular exponentiation of the
//! counter), a facade bound to one of them, and the request boundary.
use vstd::prelude::*;

pub mod encoding;
pub mod error;
pub mod generator;
pub mod config;
pub mod counter;
pub mod modular;
pub mod parse;
pub mod random;
pub mod service;
