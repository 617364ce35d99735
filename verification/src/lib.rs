//! A user signup backend library: a six-character e-mail verification
//! code, a calendar date type, a validation layer, a closed error
//! taxonomy, repository contracts with verified in-memory stores, and
//! the signup features that orchestrate them.
pub mod assoc;
pub mod date;
pub mod dtos;
pub mod errors;
pub mod features;
pub mod repositories;
pub mod stores;
pub mod validation;
pub mod verification_code;
