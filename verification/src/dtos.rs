//! The data-transfer types that cross the library's boundary: signup
//! inputs, user-creation inputs, credentials, and the persisted user
//! record.
use vstd::prelude::*;

use crate::date::Date;
use crate::verification_code::EmailVerificationCode;

verus! {

/// The first-step signup input: the address to send a verification code
/// to.
pub struct SignupEmailDTO {
    pub email: String,
}

/// The second-step signup input: the address and the code the caller
/// presents for it.
pub struct EmailVerificationDTO {
    pub email: String,
    pub code: EmailVerificationCode,
}

/// The full user-creation input.
pub struct CreateUserDTO {
    pub user_id: u128,
    pub first_name: String,
    pub last_name: String,
    pub username: String,
    pub birthday: Date,
    pub email: String,
}

/// The single-step signup input: everything needed to create a user and
/// its credentials at once.
pub struct SignupRequestDTO {
    pub user_id: u128,
    pub email: String,
    pub username: String,
    pub password: String,
    pub birthday: Date,
}

/// A user's login credentials, written together with the user row.
pub struct CredentialsDTO {
    pub user_id: u128,
    pub password: String,
}

/// A persisted user record, with its creation and update instants as
/// millisecond timestamps.
pub struct UserDTO {
    pub user_id: u128,
    pub first_name: String,
    pub last_name: String,
    pub username: String,
    pub birthday: Date,
    pub email: String,
    pub created_at: i64,
    pub updated_at: i64,
}

/// Relies on chrono's `Utc::now`: the clock's reading in milliseconds
/// since the epoch. Nothing further is promised of it.
#[verifier::external_body]
fn now_timestamp_millis() -> (r: i64)
{
    chrono::Utc::now().timestamp_millis()
}

impl CreateUserDTO {
    /// Whether the input's address equals the given one, character for
    /// character.
    pub fn matches_email(&self, email: &String) -> (r: bool)
        ensures
            r == (self.email@ == email@),
    {
        self.email.eq(email)
    }
}

/// The record `user` is the one that creating from `dto` persists: every
/// field carried over, and the two instants stamped equal.
pub open spec fn user_from_create(user: UserDTO, dto: CreateUserDTO) -> bool {
    &&& user.user_id == dto.user_id
    &&& user.first_name == dto.first_name
    &&& user.last_name == dto.last_name
    &&& user.username == dto.username
    &&& user.birthday == dto.birthday
    &&& user.email == dto.email
    &&& user.created_at == user.updated_at
}

impl UserDTO {
    /// Build the record to persist for a creation input: the input's
    /// fields, stamped with one clock reading for both instants.
    pub fn new(dto: CreateUserDTO) -> (r: Self)
        ensures
            user_from_create(r, dto),
    {
        let now = now_timestamp_millis();
        Self {
            user_id: dto.user_id,
            first_name: dto.first_name,
            last_name: dto.last_name,
            username: dto.username,
            birthday: dto.birthday,
            email: dto.email,
            created_at: now,
            updated_at: now,
        }
    }
}

impl Clone for UserDTO {
    /// A clone carries the same fields.
    fn clone(&self) -> (r: Self)
        ensures
            r == *self,
    {
        Self {
            user_id: self.user_id,
            first_name: self.first_name.clone(),
            last_name: self.last_name.clone(),
            username: self.username.clone(),
            birthday: self.birthday,
            email: self.email.clone(),
            created_at: self.created_at,
            updated_at: self.updated_at,
        }
    }
}

} // verus!
