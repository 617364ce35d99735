//! The single-step signup: check both uniqueness rules, then persist the
//! user and its credentials in one atomic unit. This flow records no
//! first or last name.
//!
//! The two uniqueness checks and the later write are not one atomic
//! step: two racing signups may both pass the checks, and the
//! persistence layer's uniqueness constraints are the backstop.
use vstd::prelude::*;
use vstd::string::*;

use crate::dtos::{CreateUserDTO, CredentialsDTO, SignupRequestDTO, UserDTO};
use crate::errors::{ZwitterError, is_infra_error};
use crate::repositories::{UsersRepository, email_in, username_in};
use crate::validation::{
    field_errors_match, signup_request_error_model, signup_request_valid, validate_signup_request,
};

verus! {

/// The record `u` is the one that the single-step signup of `i`
/// persists: the input's identity fields, empty names, and the two
/// instants stamped equal.
pub open spec fn user_from_signup(u: UserDTO, i: SignupRequestDTO) -> bool {
    &&& u.user_id == i.user_id
    &&& u.username@ == i.username@
    &&& u.email@ == i.email@
    &&& u.birthday == i.birthday
    &&& u.first_name@ == Seq::<char>::empty()
    &&& u.last_name@ == Seq::<char>::empty()
    &&& u.created_at == u.updated_at
}

/// The feature, composed over the one store it writes.
pub struct SignupWithEmail<U: UsersRepository> {
    pub users_repository: U,
}

impl<U: UsersRepository> SignupWithEmail<U> {
    /// The composed store is well-formed.
    pub open spec fn inv(&self) -> bool {
        self.users_repository.inv()
    }

    /// Run the signup. An address already in use earns
    /// `EMAIL_ALREADY_TAKEN`; a username already in use earns
    /// `USERNAME_ALREADY_TAKEN`; otherwise the user and its credentials
    /// are persisted together — on any failure neither record lands.
    /// Only the infrastructure channel may fail otherwise.
    pub fn execute(&mut self, input: SignupRequestDTO) -> (r: Result<(), ZwitterError>)
        requires
            old(self).inv(),
        ensures
            final(self).inv(),
            // an invalid input is rejected with its field errors
            !signup_request_valid(input) ==> (r matches Err(e) && e
                matches ZwitterError::Validation(c, es) && c@ == "SIGNUP_EMAIL"@
                && field_errors_match(es@, signup_request_error_model(input))),
            r matches Err(e) ==> (e matches ZwitterError::Validation(_, _)
                ==> !signup_request_valid(input)),
            // the two uniqueness rules, checked in order
            r matches Err(e) ==> (e matches ZwitterError::Domain(c) ==> (signup_request_valid(input)
                && ((c@ == "EMAIL_ALREADY_TAKEN"@ && email_in(
                old(self).users_repository.users(),
                input.email@,
            )) || (c@ == "USERNAME_ALREADY_TAKEN"@ && !email_in(
                old(self).users_repository.users(),
                input.email@,
            ) && username_in(old(self).users_repository.users(), input.username@))))),
            signup_request_valid(input) && email_in(old(self).users_repository.users(), input.email@)
                ==> r is Err,
            signup_request_valid(input) && !email_in(
                old(self).users_repository.users(),
                input.email@,
            ) && username_in(old(self).users_repository.users(), input.username@) ==> r is Err,
            // the write is atomic: on any failure neither record lands
            r matches Err(_) ==> final(self).users_repository.users() == old(
                self,
            ).users_repository.users() && final(self).users_repository.credentials() == old(
                self,
            ).users_repository.credentials(),
            // success: the user and its credentials are both persisted
            r matches Ok(_) ==> signup_request_valid(input) && !email_in(
                old(self).users_repository.users(),
                input.email@,
            ) && !username_in(old(self).users_repository.users(), input.username@) && (exists|
                u: UserDTO,
            |
                #[trigger] user_from_signup(u, input) && final(self).users_repository.users() == old(
                    self,
                ).users_repository.users().insert(input.user_id, u))
                && final(self).users_repository.credentials() == old(
                self,
            ).users_repository.credentials().insert(input.user_id, input.password@),
            // success is owed whenever only the infrastructure could refuse
            signup_request_valid(input) && !email_in(
                old(self).users_repository.users(),
                input.email@,
            ) && !username_in(old(self).users_repository.users(), input.username@) ==> r is Ok || (r
                matches Err(e) && is_infra_error(e)),
            // the taxonomy is closed
            r matches Err(e) ==> (e matches ZwitterError::Validation(_, _)
                || e matches ZwitterError::Domain(_) || is_infra_error(e)),
    {
        if let Err(es) = validate_signup_request(&input) {
            return Err(ZwitterError::Validation(String::from_str("SIGNUP_EMAIL"), es));
        }
        let email_taken = match self.users_repository.email_exists(&input.email) {
            Ok(b) => b,
            Err(e) => {
                return Err(e);
            },
        };
        if email_taken {
            return Err(ZwitterError::Domain(String::from_str("EMAIL_ALREADY_TAKEN")));
        }
        let username_taken = match self.users_repository.username_exists(&input.username) {
            Ok(b) => b,
            Err(e) => {
                return Err(e);
            },
        };
        if username_taken {
            return Err(ZwitterError::Domain(String::from_str("USERNAME_ALREADY_TAKEN")));
        }
        let create_user_dto = CreateUserDTO {
            user_id: input.user_id,
            first_name: String::new(),
            last_name: String::new(),
            username: input.username.clone(),
            birthday: input.birthday,
            email: input.email.clone(),
        };
        let ghost gdto = create_user_dto;
        let credentials_dto = CredentialsDTO { user_id: input.user_id, password: input.password };
        match self.users_repository.create_with_credentials(create_user_dto, credentials_dto) {
            Ok(_) => {
                proof {
                    let u = choose|u: UserDTO|
                        #[trigger] crate::dtos::user_from_create(u, gdto)
                            && self.users_repository.users() == old(
                            self,
                        ).users_repository.users().insert(gdto.user_id, u);
                    assert(user_from_signup(u, input));
                }
                Ok(())
            },
            Err(e) => Err(e),
        }
    }
}

} // verus!
