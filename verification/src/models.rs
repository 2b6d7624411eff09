//! The records of the user resource.

pub mod users;

pub use users::{PostUserRequest, PutUserRequest, User};
