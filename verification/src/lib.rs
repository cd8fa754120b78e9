//! A small media service: bucket configuration, request validation,
//! image resizing decisions and storage layout, with their contracts.

pub mod text;
pub mod error;
pub mod buckets;
pub mod image_id;
pub mod image_processing;
pub mod auth;
pub mod bucket;
pub mod config;
pub mod cleanup;
pub mod routes;
