//! Rules and computations of the dormitory management service: configuration,
//! paging, authentication tokens, base-data validation, duty assignment and
//! dormitory inspection.
pub mod text;
pub mod digits;
pub mod error;
pub mod http;
pub mod model;
pub mod config;
pub mod crypto;
pub mod auth;
pub mod validation;
pub mod inspection;
pub mod duties;
pub mod basics;
pub mod access;
