//! Field-level validation and feedback for an account signup form, with the
//! markup that shows it.

pub mod contacts;
pub mod db;
pub mod email;
pub mod templates;
pub mod unicode;
pub mod user;
