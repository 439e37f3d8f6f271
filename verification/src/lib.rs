//! Identity backend core: credential hashing, bearer tokens, the user service
//! and the per-request authorization middleware, with machine-checked contracts.

pub mod auth;
pub mod catalogue;
mod clock;
pub mod commerce;
pub mod error;
pub mod hasher;
pub mod ids;
pub mod laws;
pub mod ports;
pub mod requests;
pub mod roles;
pub mod service;
pub mod text;
pub mod token;
pub mod user;
