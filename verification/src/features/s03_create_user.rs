//! The final signup step: look the staged address up by the presented
//! identifier, insist the input carries that very address, and persist
//! the user.
use vstd::prelude::*;
use vstd::string::*;

use crate::dtos::{CreateUserDTO, UserDTO, user_from_create};
use crate::errors::{ZwitterError, is_infra_error, is_not_found_with};
use crate::repositories::{TemporaryUsersRepository, UsersRepository};
use crate::validation::{
    create_user_error_model, create_user_valid, field_errors_match, validate_create_user,
};

verus! {

/// The feature, composed over the stores it consults.
pub struct CreateUser<U: UsersRepository, T: TemporaryUsersRepository> {
    pub users_repository: U,
    pub tmp_users_repository: T,
}

impl<U: UsersRepository, T: TemporaryUsersRepository> CreateUser<U, T> {
    /// Every composed store is well-formed.
    pub open spec fn inv(&self) -> bool {
        &&& self.users_repository.inv()
        &&& self.tmp_users_repository.inv()
    }

    /// Run the step. With no staging record for the identifier it fails
    /// `TEMPORARY_USER_NOT_FOUND`; with a staged address other than the
    /// input's it fails `CREATE_USER_EMAIL_MISMATCH`; otherwise the user
    /// is persisted. Only the infrastructure channel may fail otherwise.
    pub fn execute(&mut self, input: CreateUserDTO) -> (r: Result<(), ZwitterError>)
        requires
            old(self).inv(),
        ensures
            final(self).inv(),
            final(self).tmp_users_repository == old(self).tmp_users_repository,
            // an invalid input is rejected with its field errors, and nothing moves
            !create_user_valid(input) ==> (r matches Err(e) && e matches ZwitterError::Validation(
                c,
                es,
            ) && c@ == "CREATE_USER"@ && field_errors_match(es@, create_user_error_model(input))
                && *final(self) == *old(self)),
            r matches Err(e) ==> (e matches ZwitterError::Validation(_, _) ==> !create_user_valid(
                input,
            )),
            // no staging record: the not-found failure, and no user persisted
            create_user_valid(input) && !old(self).tmp_users_repository.tmp_users().contains_key(
                input.user_id,
            ) ==> (r matches Err(e) && (is_not_found_with(e, "TEMPORARY_USER_NOT_FOUND"@)
                || is_infra_error(e)) && final(self).users_repository == old(
                self,
            ).users_repository),
            r matches Err(e) ==> (e matches ZwitterError::Technical(t) ==> (is_not_found_with(
                e,
                "TEMPORARY_USER_NOT_FOUND"@,
            ) && create_user_valid(input) && !old(
                self,
            ).tmp_users_repository.tmp_users().contains_key(input.user_id) && *final(self) == *old(
                self,
            )) || is_infra_error(e)),
            // a staged address other than the input's: the mismatch failure,
            // and no user persisted
            create_user_valid(input) && old(self).tmp_users_repository.tmp_users().contains_key(
                input.user_id,
            ) && old(self).tmp_users_repository.tmp_users()[input.user_id] != input.email@ ==> (r
                matches Err(e) && final(self).users_repository == old(self).users_repository),
            r matches Err(e) ==> (e matches ZwitterError::Domain(c) ==> (c@
                == "CREATE_USER_EMAIL_MISMATCH"@ && create_user_valid(input) && old(
                self,
            ).tmp_users_repository.tmp_users().contains_key(input.user_id) && old(
                self,
            ).tmp_users_repository.tmp_users()[input.user_id] != input.email@ && *final(self)
                == *old(self))),
            // success: the staged address matched and the user is persisted
            r matches Ok(_) ==> create_user_valid(input) && old(
                self,
            ).tmp_users_repository.tmp_users().contains_key(input.user_id) && old(
                self,
            ).tmp_users_repository.tmp_users()[input.user_id] == input.email@ && (exists|u: UserDTO|
                #[trigger] user_from_create(u, input) && final(self).users_repository.users() == old(
                    self,
                ).users_repository.users().insert(input.user_id, u))
                && final(self).users_repository.credentials() == old(
                self,
            ).users_repository.credentials(),
            // success is owed whenever only the infrastructure could refuse
            create_user_valid(input) && old(self).tmp_users_repository.tmp_users().contains_key(
                input.user_id,
            ) && old(self).tmp_users_repository.tmp_users()[input.user_id] == input.email@ ==> r
                is Ok || (r matches Err(e) && is_infra_error(e)),
            // the taxonomy is closed
            r matches Err(e) ==> (e matches ZwitterError::Validation(_, _)
                || e matches ZwitterError::Domain(_) || is_not_found_with(
                e,
                "TEMPORARY_USER_NOT_FOUND"@,
            ) || is_infra_error(e)),
    {
        if let Err(es) = validate_create_user(&input) {
            return Err(ZwitterError::Validation(String::from_str("CREATE_USER"), es));
        }
        let email = match self.tmp_users_repository.get_email(input.user_id) {
            Ok(email) => email,
            Err(e) => {
                return Err(e);
            },
        };
        if !input.matches_email(&email) {
            return Err(ZwitterError::Domain(String::from_str("CREATE_USER_EMAIL_MISMATCH")));
        }
        match self.users_repository.create(input) {
            Ok(_) => Ok(()),
            Err(e) => Err(e),
        }
    }
}

} // verus!
