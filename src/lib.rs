//! Credential and token lifecycle engine: accounts and their identities,
//! password identities, signed access tokens and revocable refresh tokens.

pub mod error;
pub mod model;
pub mod repository;
pub mod store;
pub mod service;
pub mod token;
