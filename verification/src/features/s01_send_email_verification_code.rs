//! The first signup step: make sure the address is unused, mint a fresh
//! verification code, store it with a time-to-live, and dispatch it.
//!
//! The check that the address is unused and the later write are not one
//! atomic step: two racing signups for one address may both pass the
//! check, and the persistence layer's uniqueness constraint is the
//! backstop.
use vstd::prelude::*;
use vstd::string::*;

use crate::dtos::SignupEmailDTO;
use crate::errors::{ZwitterError, is_infra_error};
use crate::repositories::{
    EmailSenderRepository, EmailVerificationRepository, UsersRepository, email_in,
};
use crate::validation::{
    field_errors_match, signup_email_error_model, signup_email_valid, validate_signup_email,
};
use crate::verification_code::{EmailVerificationCode, code_format_ok};

verus! {

/// The feature, composed over the stores it consults.
pub struct SendEmailVerificationCode<
    U: UsersRepository,
    V: EmailVerificationRepository,
    S: EmailSenderRepository,
> {
    pub users_repository: U,
    pub email_verifications_repository: V,
    pub email_sender_repository: S,
    /// How long a stored code lives, in seconds.
    pub code_ttl_seconds: u64,
}

impl<
    U: UsersRepository,
    V: EmailVerificationRepository,
    S: EmailSenderRepository,
> SendEmailVerificationCode<U, V, S> {
    /// Every composed store is well-formed.
    pub open spec fn inv(&self) -> bool {
        &&& self.users_repository.inv()
        &&& self.email_verifications_repository.inv()
        &&& self.email_sender_repository.inv()
    }

    /// Run the step. On a valid input whose address no user carries, a
    /// fresh well-formed code is stored for the address and dispatched
    /// to it — exactly one of each; an address already in use earns
    /// `USER_ALREADY_EXISTS` and neither store moves; an invalid input
    /// earns its field errors. Only the infrastructure channel may fail
    /// otherwise.
    pub fn execute(&mut self, input: SignupEmailDTO) -> (r: Result<(), ZwitterError>)
        requires
            old(self).inv(),
        ensures
            final(self).inv(),
            final(self).users_repository == old(self).users_repository,
            final(self).code_ttl_seconds == old(self).code_ttl_seconds,
            // an invalid input is rejected with its field errors, and nothing moves
            !signup_email_valid(input) ==> (r matches Err(e) && e matches ZwitterError::Validation(
                c,
                es,
            ) && c@ == "SIGNUP_EMAIL"@ && field_errors_match(es@, signup_email_error_model(input))
                && *final(self) == *old(self)),
            r matches Err(e) ==> (e matches ZwitterError::Validation(_, _)
                ==> !signup_email_valid(input)),
            // an address already in use is refused, and no code is issued
            signup_email_valid(input) && email_in(old(self).users_repository.users(), input.email@)
                ==> r is Err && final(self).email_verifications_repository == old(
                self,
            ).email_verifications_repository && final(self).email_sender_repository == old(
                self,
            ).email_sender_repository,
            r matches Err(e) ==> (e matches ZwitterError::Domain(c) ==> (c@
                == "USER_ALREADY_EXISTS"@ && signup_email_valid(input) && email_in(
                old(self).users_repository.users(),
                input.email@,
            ) && *final(self) == *old(self))),
            // success: exactly one fresh well-formed code stored for the
            // address, and that very code dispatched to it
            r matches Ok(_) ==> signup_email_valid(input) && !email_in(
                old(self).users_repository.users(),
                input.email@,
            ) && exists|c: Seq<char>|
                #[trigger] code_format_ok(c) && final(self).email_verifications_repository.codes()
                    == old(self).email_verifications_repository.codes().insert(input.email@, c)
                    && final(self).email_sender_repository.sent() == old(
                    self,
                ).email_sender_repository.sent().push((input.email@, c)),
            // success is owed whenever only the infrastructure could refuse
            signup_email_valid(input) && !email_in(
                old(self).users_repository.users(),
                input.email@,
            ) ==> r is Ok || (r matches Err(e) && is_infra_error(e)),
            // the taxonomy is closed
            r matches Err(e) ==> (e matches ZwitterError::Validation(_, _)
                || e matches ZwitterError::Domain(_) || is_infra_error(e)),
    {
        if let Err(es) = validate_signup_email(&input) {
            return Err(ZwitterError::Validation(String::from_str("SIGNUP_EMAIL"), es));
        }
        let taken = match self.users_repository.email_exists(&input.email) {
            Ok(b) => b,
            Err(e) => {
                return Err(e);
            },
        };
        if taken {
            return Err(ZwitterError::Domain(String::from_str("USER_ALREADY_EXISTS")));
        }
        let code = EmailVerificationCode::default();
        match self.email_verifications_repository.store(&input.email, &code, self.code_ttl_seconds) {
            Ok(_) => {},
            Err(e) => {
                return Err(e);
            },
        }
        match self.email_sender_repository.send_verify_email(&input.email, &code) {
            Ok(_) => {},
            Err(e) => {
                return Err(e);
            },
        }
        proof {
            assert(code_format_ok(code.code@));
        }
        Ok(())
    }
}

} // verus!
