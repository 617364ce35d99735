//! Direct user creation: validate the input's shape and persist the user
//! unconditionally — an earlier, less-guarded path with no uniqueness
//! check, superseded by the verification-gated flows.
use vstd::prelude::*;
use vstd::string::*;

use crate::dtos::{CreateUserDTO, UserDTO, user_from_create};
use crate::errors::{ZwitterError, is_infra_error};
use crate::repositories::UsersRepository;
use crate::validation::{
    create_user_error_model, create_user_valid, field_errors_match, validate_create_user,
};

verus! {

/// The feature, composed over the one store it writes.
pub struct CreateUser<U: UsersRepository> {
    pub users_repository: U,
}

impl<U: UsersRepository> CreateUser<U> {
    /// The composed store is well-formed.
    pub open spec fn inv(&self) -> bool {
        self.users_repository.inv()
    }

    /// Run the feature. A valid input has its user persisted — no
    /// uniqueness check guards this path; an invalid one earns its field
    /// errors. Only the infrastructure channel may fail otherwise.
    pub fn execute(&mut self, input: CreateUserDTO) -> (r: Result<(), ZwitterError>)
        requires
            old(self).inv(),
        ensures
            final(self).inv(),
            // an invalid input is rejected with its field errors, and nothing moves
            !create_user_valid(input) ==> (r matches Err(e) && e matches ZwitterError::Validation(
                c,
                es,
            ) && c@ == "CREATE_USER"@ && field_errors_match(es@, create_user_error_model(input))
                && *final(self) == *old(self)),
            r matches Err(e) ==> (e matches ZwitterError::Validation(_, _) ==> !create_user_valid(
                input,
            )),
            // success: the user is persisted
            r matches Ok(_) ==> create_user_valid(input) && (exists|u: UserDTO|
                #[trigger] user_from_create(u, input) && final(self).users_repository.users() == old(
                    self,
                ).users_repository.users().insert(input.user_id, u))
                && final(self).users_repository.credentials() == old(
                self,
            ).users_repository.credentials(),
            // success is owed whenever only the infrastructure could refuse
            create_user_valid(input) ==> r is Ok || (r matches Err(e) && is_infra_error(e)),
            // the taxonomy is closed
            r matches Err(e) ==> (e matches ZwitterError::Validation(_, _) || is_infra_error(e)),
    {
        if let Err(es) = validate_create_user(&input) {
            return Err(ZwitterError::Validation(String::from_str("CREATE_USER"), es));
        }
        match self.users_repository.create(input) {
            Ok(_) => Ok(()),
            Err(e) => Err(e),
        }
    }
}

} // verus!
