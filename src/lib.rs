//! Aggregation of trending repositories from several hosting providers:
//! normalisation, filtering, caching decisions and the fan-in of results.

pub mod aggregate;
pub mod cache;
pub mod config;
pub mod gitea;
pub mod github;
pub mod gitlab;
pub mod http;
pub mod model;
pub mod render;
pub mod select;
pub mod text;
