//! Repository contracts: one abstraction per entity family. Every
//! operation is fallible through the infrastructure channel; what each
//! promises on success is stated over the store's mathematical state.
use vstd::prelude::*;

use crate::dtos::{CreateUserDTO, CredentialsDTO, UserDTO, user_from_create};
use crate::errors::{ZwitterError, is_infra_error, is_not_found_with};
use crate::verification_code::EmailVerificationCode;

verus! {

/// Some user of the store carries this address.
pub open spec fn email_in(users: Map<u128, UserDTO>, email: Seq<char>) -> bool {
    exists|id: u128| #[trigger] users.contains_key(id) && users[id].email@ == email
}

/// Some user of the store carries this username.
pub open spec fn username_in(users: Map<u128, UserDTO>, username: Seq<char>) -> bool {
    exists|id: u128| #[trigger] users.contains_key(id) && users[id].username@ == username
}

/// Storage of user records and their credentials, keyed by user id.
pub trait UsersRepository: Sized {
    /// The store's well-formedness, established by its constructors and
    /// kept by every operation.
    spec fn inv(&self) -> bool;

    /// The persisted users, by id.
    spec fn users(&self) -> Map<u128, UserDTO>;

    /// The persisted credentials: each user id's password record.
    spec fn credentials(&self) -> Map<u128, Seq<char>>;

    /// Persist the user a creation input describes, unconditionally.
    fn create(&mut self, dto: CreateUserDTO) -> (r: Result<(), ZwitterError>)
        requires
            old(self).inv(),
        ensures
            final(self).inv(),
            r matches Ok(_) ==> exists|u: UserDTO|
                #[trigger] user_from_create(u, dto) && final(self).users() == old(
                    self,
                ).users().insert(dto.user_id, u),
            r matches Ok(_) ==> final(self).credentials() == old(self).credentials(),
            r matches Err(e) ==> is_infra_error(e),
    ;

    /// Persist a user together with its credentials, in one atomic unit:
    /// either both records land or neither does.
    fn create_with_credentials(&mut self, dto: CreateUserDTO, credentials: CredentialsDTO) -> (r:
        Result<(), ZwitterError>)
        requires
            old(self).inv(),
        ensures
            final(self).inv(),
            r matches Ok(_) ==> exists|u: UserDTO|
                #[trigger] user_from_create(u, dto) && final(self).users() == old(
                    self,
                ).users().insert(dto.user_id, u),
            r matches Ok(_) ==> final(self).credentials() == old(self).credentials().insert(
                credentials.user_id,
                credentials.password@,
            ),
            r matches Err(e) ==> is_infra_error(e) && final(self).users() == old(self).users()
                && final(self).credentials() == old(self).credentials(),
    ;

    /// Look a user up by id; absence is a not-found failure.
    fn get(&self, user_id: u128) -> (r: Result<UserDTO, ZwitterError>)
        requires
            self.inv(),
        ensures
            r matches Ok(u) ==> self.users().contains_key(user_id) && u == self.users()[user_id],
            r matches Err(e) ==> is_infra_error(e) || (is_not_found_with(e, "USER_NOT_FOUND"@)
                && !self.users().contains_key(user_id)),
            !self.users().contains_key(user_id) ==> r is Err,
    ;

    /// Whether some user carries this address.
    fn email_exists(&self, email: &String) -> (r: Result<bool, ZwitterError>)
        requires
            self.inv(),
        ensures
            r matches Ok(b) ==> b == email_in(self.users(), email@),
            r matches Err(e) ==> is_infra_error(e),
    ;

    /// Whether some user carries this username.
    fn username_exists(&self, username: &String) -> (r: Result<bool, ZwitterError>)
        requires
            self.inv(),
        ensures
            r matches Ok(b) ==> b == username_in(self.users(), username@),
            r matches Err(e) ==> is_infra_error(e),
    ;
}

/// Storage of the staging records: a short-lived identifier bound to a
/// proven address.
pub trait TemporaryUsersRepository: Sized {
    /// The store's well-formedness.
    spec fn inv(&self) -> bool;

    /// The staged records: each identifier's address.
    spec fn tmp_users(&self) -> Map<u128, Seq<char>>;

    /// Bind `email` to the identifier, replacing any earlier binding.
    fn store(&mut self, tmp_user_id: u128, email: &String) -> (r: Result<(), ZwitterError>)
        requires
            old(self).inv(),
        ensures
            final(self).inv(),
            r matches Ok(_) ==> final(self).tmp_users() == old(self).tmp_users().insert(
                tmp_user_id,
                email@,
            ),
            r matches Err(e) ==> is_infra_error(e),
    ;

    /// The address bound to the identifier; absence is the
    /// `TEMPORARY_USER_NOT_FOUND` failure.
    fn get_email(&self, tmp_user_id: u128) -> (r: Result<String, ZwitterError>)
        requires
            self.inv(),
        ensures
            r matches Ok(email) ==> self.tmp_users().contains_key(tmp_user_id) && email@
                == self.tmp_users()[tmp_user_id],
            r matches Err(e) ==> is_infra_error(e) || (is_not_found_with(
                e,
                "TEMPORARY_USER_NOT_FOUND"@,
            ) && !self.tmp_users().contains_key(tmp_user_id)),
            !self.tmp_users().contains_key(tmp_user_id) ==> r is Err,
    ;
}

/// Storage of verification codes, keyed by address, each with a
/// time-to-live the store itself enforces.
pub trait EmailVerificationRepository: Sized {
    /// The store's well-formedness.
    spec fn inv(&self) -> bool;

    /// The most recently stored code for each address.
    spec fn codes(&self) -> Map<Seq<char>, Seq<char>>;

    /// Store `code` for `email` with the given time-to-live, replacing
    /// any earlier code for that address.
    fn store(&mut self, email: &String, code: &EmailVerificationCode, ttl_seconds: u64) -> (r:
        Result<(), ZwitterError>)
        requires
            old(self).inv(),
        ensures
            final(self).inv(),
            r matches Ok(_) ==> final(self).codes() == old(self).codes().insert(
                email@,
                code.code@,
            ),
            r matches Err(e) ==> is_infra_error(e),
    ;

    /// Whether `code` equals, character for character, the most recently
    /// stored code for `email`.
    fn code_matches(&self, email: &String, code: &EmailVerificationCode) -> (r: Result<
        bool,
        ZwitterError,
    >)
        requires
            self.inv(),
        ensures
            r matches Ok(b) ==> b == (self.codes().contains_key(email@) && self.codes()[email@]
                == code.code@),
            r matches Err(e) ==> is_infra_error(e),
    ;
}

/// The outbound e-mail collaborator.
pub trait EmailSenderRepository: Sized {
    /// The sender's well-formedness.
    spec fn inv(&self) -> bool;

    /// The log of verification e-mails dispatched: address and code, in
    /// order.
    spec fn sent(&self) -> Seq<(Seq<char>, Seq<char>)>;

    /// Dispatch the verification code to the address.
    fn send_verify_email(&mut self, email: &String, code: &EmailVerificationCode) -> (r: Result<
        (),
        ZwitterError,
    >)
        requires
            old(self).inv(),
        ensures
            final(self).inv(),
            r matches Ok(_) ==> final(self).sent() == old(self).sent().push((email@, code.code@)),
            r matches Err(e) ==> is_infra_error(e),
    ;
}

} // verus!
