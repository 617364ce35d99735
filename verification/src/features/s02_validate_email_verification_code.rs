//! The second signup step: match the presented code against the stored
//! one and, on success, stage the proven address under a fresh opaque
//! identifier.
use vstd::prelude::*;
use vstd::string::*;

use crate::dtos::EmailVerificationDTO;
use crate::errors::{ZwitterError, is_infra_error};
use crate::repositories::{
    EmailVerificationRepository, TemporaryUsersRepository, UsersRepository,
};
use crate::validation::{
    email_verification_error_model, email_verification_valid, field_errors_match,
    validate_email_verification,
};

verus! {

/// Relies on uuid's `Uuid::new_v4`: a fresh random identifier; every
/// outcome carries the version-four and variant bits.
#[verifier::external_body]
fn mint_tmp_user_id() -> (r: u128)
    ensures
        (r >> 76) & 0xf == 4,
        (r >> 62) & 0x3 == 2,
{
    uuid::Uuid::new_v4().as_u128()
}

/// The presented code is exactly the most recently stored one for the
/// address.
pub open spec fn code_matches_stored(
    codes: Map<Seq<char>, Seq<char>>,
    input: EmailVerificationDTO,
) -> bool {
    codes.contains_key(input.email@) && codes[input.email@] == input.code.code@
}

/// The feature, composed over the stores it consults.
pub struct ValidateEmailVerificationCode<
    U: UsersRepository,
    V: EmailVerificationRepository,
    T: TemporaryUsersRepository,
> {
    pub users_repository: U,
    pub email_verifications_repository: V,
    pub tmp_users_repository: T,
}

impl<
    U: UsersRepository,
    V: EmailVerificationRepository,
    T: TemporaryUsersRepository,
> ValidateEmailVerificationCode<U, V, T> {
    /// Every composed store is well-formed.
    pub open spec fn inv(&self) -> bool {
        &&& self.users_repository.inv()
        &&& self.email_verifications_repository.inv()
        &&& self.tmp_users_repository.inv()
    }

    /// Run the step. Succeeds exactly when the presented code equals the
    /// most recently stored code for the address — anything else earns
    /// `INVALID_EMAIL_VERIFICATION_TOKEN` — and on success stages the
    /// address under the fresh identifier it returns. Only the
    /// infrastructure channel may fail otherwise.
    pub fn execute(&mut self, input: EmailVerificationDTO) -> (r: Result<u128, ZwitterError>)
        requires
            old(self).inv(),
        ensures
            final(self).inv(),
            final(self).users_repository == old(self).users_repository,
            final(self).email_verifications_repository == old(
                self,
            ).email_verifications_repository,
            // an invalid input is rejected with its field errors, and nothing moves
            !email_verification_valid(input) ==> (r matches Err(e) && e
                matches ZwitterError::Validation(c, es) && c@ == "VALIDATE_EMAIL_VERIFICATION_CODE"@
                && field_errors_match(es@, email_verification_error_model(input)) && *final(self)
                == *old(self)),
            r matches Err(e) ==> (e matches ZwitterError::Validation(_, _)
                ==> !email_verification_valid(input)),
            // a code other than the stored one is refused, and nothing is staged
            email_verification_valid(input) && !code_matches_stored(
                old(self).email_verifications_repository.codes(),
                input,
            ) ==> r is Err && final(self).tmp_users_repository == old(self).tmp_users_repository,
            r matches Err(e) ==> (e matches ZwitterError::Domain(c) ==> (c@
                == "INVALID_EMAIL_VERIFICATION_TOKEN"@ && email_verification_valid(input)
                && !code_matches_stored(old(self).email_verifications_repository.codes(), input)
                && *final(self) == *old(self))),
            // success: the match held and the address is staged under the
            // returned fresh identifier
            r matches Ok(id) ==> email_verification_valid(input) && code_matches_stored(
                old(self).email_verifications_repository.codes(),
                input,
            ) && final(self).tmp_users_repository.tmp_users() == old(
                self,
            ).tmp_users_repository.tmp_users().insert(id, input.email@),
            // success is owed whenever only the infrastructure could refuse
            email_verification_valid(input) && code_matches_stored(
                old(self).email_verifications_repository.codes(),
                input,
            ) ==> r is Ok || (r matches Err(e) && is_infra_error(e)),
            // the taxonomy is closed
            r matches Err(e) ==> (e matches ZwitterError::Validation(_, _)
                || e matches ZwitterError::Domain(_) || is_infra_error(e)),
    {
        if let Err(es) = validate_email_verification(&input) {
            return Err(
                ZwitterError::Validation(String::from_str("VALIDATE_EMAIL_VERIFICATION_CODE"), es),
            );
        }
        let is_valid = match self.email_verifications_repository.code_matches(
            &input.email,
            &input.code,
        ) {
            Ok(b) => b,
            Err(e) => {
                return Err(e);
            },
        };
        if !is_valid {
            return Err(ZwitterError::Domain(String::from_str("INVALID_EMAIL_VERIFICATION_TOKEN")));
        }
        let tmp_user_id = mint_tmp_user_id();
        match self.tmp_users_repository.store(tmp_user_id, &input.email) {
            Ok(_) => Ok(tmp_user_id),
            Err(e) => Err(e),
        }
    }
}

} // verus!
