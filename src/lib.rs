//! Password hashing, stored-record encoding and credential checks for an
//! account service, with the contracts each operation meets.
//!
//! - `algorithm`: the digest functions and their canonical names.
//! - `digest`: one digest rendered in lowercase hexadecimal.
//! - `text`: character-level helpers: digits, decimal numbers, delimiters.
//! - `codec`: the stored record `algorithm$rounds$saltLength$salt$digest`.
//! - `salt`: the salt alphabet and salt generation.
//! - `hasher`: multi-round hashing, new records and password verification.
//! - `service`: the sign-in decision.
//! - `token`: signed, expiring access and refresh tokens.
//! - `models`: validated values of an account.
//! - `auth`, `accounts`: the checks and error kinds of the sign-in and
//!   account operations.

pub mod accounts;
pub mod algorithm;
pub mod auth;
pub mod codec;
pub mod digest;
pub mod hasher;
pub mod models;
pub mod salt;
pub mod service;
pub mod text;
pub mod token;
