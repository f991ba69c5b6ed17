//! Verified core of a small message board service.

pub mod error;
pub mod handler;
pub mod model;
pub mod response;
pub mod route;
pub mod schema;
pub mod service;
pub mod statement;
pub mod store;
pub mod text;
pub mod theorems;
