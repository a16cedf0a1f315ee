//! Authentication core of a small networked service: salted password
//! hashing, signed expiring bearer tokens, credential records with a
//! revocation counter, and the guard that admits or rejects a request.

pub mod credential;
pub mod error;
pub mod guard;
pub mod hasher;
pub mod service;
pub mod store;
pub mod todo;
pub mod token;
