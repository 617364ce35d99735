//! The use-case features: each takes one input, consults its
//! repositories in sequence, and returns either success or a typed
//! failure.
pub mod create_user;
pub mod s01_send_email_verification_code;
pub mod signup_with_email;
pub mod s02_validate_email_verification_code;
pub mod s03_create_user;
