//! Request handling decisions of the HTTP routes.
//!
//! - [`upload`]: `POST /upload`, protected, stores a resized WebP image.
//! - [`serve`]: `GET /{bucket}/{image_id}`, public, serves a stored image.
//! - [`delete`]: `DELETE /{bucket}/{image_id}`, protected, removes a
//!   stored image.

pub mod upload;
pub mod delete;
pub mod serve;
