//! The handlers, by resource.

pub mod user_routes;
