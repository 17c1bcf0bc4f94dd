//! The core of a URL shortener. An identifier drawn from a shared counter
//! is written in base 62 over an alphabet whose order a secret key fixes;
//! the code that results stands for a long URL in a durable store.
//!
//! - [`alphabet`]: the 62 symbols and their keyed permutation.
//! - [`encoder`]: identifier to short code, and what holds of every code.
//! - [`service`]: what the create and resolve flows decide between two
//!   calls to a store.
//! - [`model`]: the durable store as a map, and the guarantees that rest
//!   on it behaving like one.
//! - [`trusted`]: the hash and the shuffle, whose contracts are believed.

pub mod alphabet;
pub mod encoder;
pub mod model;
pub mod service;
pub mod trusted;
