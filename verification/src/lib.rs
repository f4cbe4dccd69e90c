//! Nullith's logic: API-key checks, errors and their bodies, notes, files, identifiers and the
//! gateway's routing, each with the contract that Verus proves of it.

pub mod api;
pub mod auth;
pub mod error;
pub mod models;
pub mod number;
pub mod response;
pub mod routes;
pub mod text;
pub mod utils;
