//! Verified in-memory stores: one per repository contract, each modelled
//! as an association list with unique keys.
use vstd::prelude::*;

use crate::assoc::{
    lemma_map_of_contains, lemma_map_of_index, lemma_map_of_push, lemma_map_of_update,
    lemma_unique_keys_push, map_of, unique_keys,
};
use crate::dtos::{CreateUserDTO, CredentialsDTO, UserDTO, user_from_create};
use crate::errors::ZwitterError;
use crate::repositories::{
    EmailSenderRepository, EmailVerificationRepository, TemporaryUsersRepository, UsersRepository,
};
use crate::verification_code::EmailVerificationCode;

verus! {

/// The entries of a string-keyed vector, as their views.
pub open spec fn kvs_string_string(s: Seq<(String, String)>) -> Seq<(Seq<char>, Seq<char>)> {
    s.map_values(|p: (String, String)| (p.0@, p.1@))
}

/// The entries of an id-keyed vector of strings, as their views.
pub open spec fn kvs_u128_string(s: Seq<(u128, String)>) -> Seq<(u128, Seq<char>)> {
    s.map_values(|p: (u128, String)| (p.0, p.1@))
}

/// Insert or replace the entry for `key` in an id-keyed vector.
fn u128_upsert(entries: &mut Vec<(u128, String)>, key: u128, value: String)
    requires
        unique_keys(kvs_u128_string(old(entries)@)),
    ensures
        unique_keys(kvs_u128_string(final(entries)@)),
        map_of(kvs_u128_string(final(entries)@)) == map_of(kvs_u128_string(old(entries)@)).insert(
            key,
            value@,
        ),
{
    let n = entries.len();
    let mut i: usize = 0;
    while i < n
        invariant
            unique_keys(kvs_u128_string(entries@)),
            entries@ == old(entries)@,
            n == entries@.len(),
            i <= n,
            forall|j: int| 0 <= j < i ==> (#[trigger] entries@[j]).0 != key,
        decreases n - i,
    {
        if entries[i].0 == key {
            let ghost prev = entries@;
            entries[i] = (key, value);
            proof {
                assert(kvs_u128_string(entries@) =~= kvs_u128_string(prev).update(
                    i as int,
                    (key, value@),
                ));
                lemma_map_of_update(kvs_u128_string(prev), i as int, key, value@);
            }
            return;
        }
        i += 1;
    }
    let ghost prev = entries@;
    entries.push((key, value));
    proof {
        assert(kvs_u128_string(entries@) =~= kvs_u128_string(prev).push((key, value@)));
        assert(forall|j: int|
            0 <= j < kvs_u128_string(prev).len() ==> (#[trigger] kvs_u128_string(prev)[j]).0
                != key);
        lemma_unique_keys_push(kvs_u128_string(prev), key, value@);
        lemma_map_of_push(kvs_u128_string(prev), key, value@);
    }
}

/// The value stored for `key` in an id-keyed vector, if any.
fn u128_lookup(entries: &Vec<(u128, String)>, key: u128) -> (r: Option<String>)
    requires
        unique_keys(kvs_u128_string(entries@)),
    ensures
        r matches Some(v) ==> map_of(kvs_u128_string(entries@)).contains_key(key) && v@ == map_of(
            kvs_u128_string(entries@),
        )[key],
        r is None ==> !map_of(kvs_u128_string(entries@)).contains_key(key),
{
    let n = entries.len();
    let mut i: usize = 0;
    while i < n
        invariant
            unique_keys(kvs_u128_string(entries@)),
            n == entries@.len(),
            i <= n,
            forall|j: int| 0 <= j < i ==> (#[trigger] entries@[j]).0 != key,
        decreases n - i,
    {
        if entries[i].0 == key {
            proof {
                lemma_map_of_index(kvs_u128_string(entries@), key, i as int);
            }
            return Some(entries[i].1.clone());
        }
        i += 1;
    }
    proof {
        lemma_map_of_contains(kvs_u128_string(entries@), key);
    }
    None
}

/// Insert or replace the entry for `key` in a string-keyed vector.
fn string_upsert(entries: &mut Vec<(String, String)>, key: String, value: String)
    requires
        unique_keys(kvs_string_string(old(entries)@)),
    ensures
        unique_keys(kvs_string_string(final(entries)@)),
        map_of(kvs_string_string(final(entries)@)) == map_of(
            kvs_string_string(old(entries)@),
        ).insert(key@, value@),
{
    let n = entries.len();
    let mut i: usize = 0;
    while i < n
        invariant
            unique_keys(kvs_string_string(entries@)),
            entries@ == old(entries)@,
            n == entries@.len(),
            i <= n,
            forall|j: int| 0 <= j < i ==> (#[trigger] entries@[j]).0@ != key@,
        decreases n - i,
    {
        if entries[i].0.eq(&key) {
            let ghost prev = entries@;
            entries[i] = (key, value);
            proof {
                assert(kvs_string_string(entries@) =~= kvs_string_string(prev).update(
                    i as int,
                    (key@, value@),
                ));
                lemma_map_of_update(kvs_string_string(prev), i as int, key@, value@);
            }
            return;
        }
        i += 1;
    }
    let ghost prev = entries@;
    entries.push((key, value));
    proof {
        assert(kvs_string_string(entries@) =~= kvs_string_string(prev).push((key@, value@)));
        assert(forall|j: int|
            0 <= j < kvs_string_string(prev).len() ==> (#[trigger] kvs_string_string(prev)[j]).0
                != key@);
        lemma_unique_keys_push(kvs_string_string(prev), key@, value@);
        lemma_map_of_push(kvs_string_string(prev), key@, value@);
    }
}

/// The value stored for `key` in a string-keyed vector, if any.
fn string_lookup(entries: &Vec<(String, String)>, key: &String) -> (r: Option<String>)
    requires
        unique_keys(kvs_string_string(entries@)),
    ensures
        r matches Some(v) ==> map_of(kvs_string_string(entries@)).contains_key(key@) && v@
            == map_of(kvs_string_string(entries@))[key@],
        r is None ==> !map_of(kvs_string_string(entries@)).contains_key(key@),
{
    let n = entries.len();
    let mut i: usize = 0;
    while i < n
        invariant
            unique_keys(kvs_string_string(entries@)),
            n == entries@.len(),
            i <= n,
            forall|j: int| 0 <= j < i ==> (#[trigger] entries@[j]).0@ != key@,
        decreases n - i,
    {
        if entries[i].0.eq(key) {
            proof {
                lemma_map_of_index(kvs_string_string(entries@), key@, i as int);
            }
            return Some(entries[i].1.clone());
        }
        i += 1;
    }
    proof {
        lemma_map_of_contains(kvs_string_string(entries@), key@);
    }
    None
}

/// The in-memory verification-code store. The time-to-live is the
/// store's concern; this one never expires an entry.
pub struct InMemoryEmailVerificationRepository {
    entries: Vec<(String, String)>,
}

impl InMemoryEmailVerificationRepository {
    /// A store holding one code for one address.
    pub fn from_email_and_code(email: String, code: EmailVerificationCode) -> (r: Self)
        ensures
            r.inv(),
            r.codes() == Map::<Seq<char>, Seq<char>>::empty().insert(email@, code.code@),
    {
        let ghost e = email@;
        let ghost c = code.code@;
        let mut entries: Vec<(String, String)> = Vec::new();
        entries.push((email, code.code));
        proof {
            assert(kvs_string_string(entries@) =~= Seq::<(Seq<char>, Seq<char>)>::empty().push(
                (e, c),
            ));
            lemma_unique_keys_push(Seq::<(Seq<char>, Seq<char>)>::empty(), e, c);
            lemma_map_of_push(Seq::<(Seq<char>, Seq<char>)>::empty(), e, c);
        }
        Self { entries }
    }
}

impl Default for InMemoryEmailVerificationRepository {
    /// An empty store.
    fn default() -> (r: Self)
        ensures
            r.inv(),
            r.codes() == Map::<Seq<char>, Seq<char>>::empty(),
    {
        let r = Self { entries: Vec::new() };
        proof {
            assert(kvs_string_string(r.entries@) =~= Seq::<(Seq<char>, Seq<char>)>::empty());
        }
        r
    }
}

impl EmailVerificationRepository for InMemoryEmailVerificationRepository {
    closed spec fn inv(&self) -> bool {
        unique_keys(kvs_string_string(self.entries@))
    }

    closed spec fn codes(&self) -> Map<Seq<char>, Seq<char>> {
        map_of(kvs_string_string(self.entries@))
    }

    fn store(&mut self, email: &String, code: &EmailVerificationCode, ttl_seconds: u64) -> (r:
        Result<(), ZwitterError>) {
        string_upsert(&mut self.entries, email.clone(), code.code.clone());
        Ok(())
    }

    fn code_matches(&self, email: &String, code: &EmailVerificationCode) -> (r: Result<
        bool,
        ZwitterError,
    >) {
        match string_lookup(&self.entries, email) {
            Some(stored) => Ok(stored.eq(&code.code)),
            None => Ok(false),
        }
    }
}

/// The in-memory staging store: identifiers bound to proven addresses.
pub struct InMemoryTmpUsersRepository {
    entries: Vec<(u128, String)>,
}

impl InMemoryTmpUsersRepository {
    /// A store holding one staged record.
    pub fn from_existing_tmp_user(tmp_user_id: u128, email: String) -> (r: Self)
        ensures
            r.inv(),
            r.tmp_users() == Map::<u128, Seq<char>>::empty().insert(tmp_user_id, email@),
    {
        let ghost e = email@;
        let mut entries: Vec<(u128, String)> = Vec::new();
        entries.push((tmp_user_id, email));
        proof {
            assert(kvs_u128_string(entries@) =~= Seq::<(u128, Seq<char>)>::empty().push(
                (tmp_user_id, e),
            ));
            lemma_unique_keys_push(Seq::<(u128, Seq<char>)>::empty(), tmp_user_id, e);
            lemma_map_of_push(Seq::<(u128, Seq<char>)>::empty(), tmp_user_id, e);
        }
        Self { entries }
    }
}

impl Default for InMemoryTmpUsersRepository {
    /// An empty store.
    fn default() -> (r: Self)
        ensures
            r.inv(),
            r.tmp_users() == Map::<u128, Seq<char>>::empty(),
    {
        let r = Self { entries: Vec::new() };
        proof {
            assert(kvs_u128_string(r.entries@) =~= Seq::<(u128, Seq<char>)>::empty());
        }
        r
    }
}

impl TemporaryUsersRepository for InMemoryTmpUsersRepository {
    closed spec fn inv(&self) -> bool {
        unique_keys(kvs_u128_string(self.entries@))
    }

    closed spec fn tmp_users(&self) -> Map<u128, Seq<char>> {
        map_of(kvs_u128_string(self.entries@))
    }

    fn store(&mut self, tmp_user_id: u128, email: &String) -> (r: Result<(), ZwitterError>) {
        u128_upsert(&mut self.entries, tmp_user_id, email.clone());
        Ok(())
    }

    fn get_email(&self, tmp_user_id: u128) -> (r: Result<String, ZwitterError>) {
        match u128_lookup(&self.entries, tmp_user_id) {
            Some(email) => Ok(email),
            None => Err(ZwitterError::not_found(String::from_str("TEMPORARY_USER_NOT_FOUND"))),
        }
    }
}

/// With unique keys, some user of the denoted map carries attribute
/// value `e` exactly when some entry's record does.
proof fn lemma_field_scan(s: Seq<(u128, UserDTO)>, f: spec_fn(UserDTO) -> Seq<char>, e: Seq<char>)
    requires
        unique_keys(s),
    ensures
        (exists|id: u128| #[trigger] map_of(s).contains_key(id) && f(map_of(s)[id]) == e) <==> (
        exists|i: int| 0 <= i < s.len() && f((#[trigger] s[i]).1) == e),
    decreases s.len(),
{
    if s.len() > 0 {
        let t = s.drop_last();
        lemma_field_scan(t, f, e);
        if exists|id: u128| #[trigger] map_of(s).contains_key(id) && f(map_of(s)[id]) == e {
            let id = choose|id: u128|
                #[trigger] map_of(s).contains_key(id) && f(map_of(s)[id]) == e;
            if id == s.last().0 {
                assert(f(s[s.len() - 1].1) == e);
            } else {
                assert(map_of(t).contains_key(id) && f(map_of(t)[id]) == e);
                let i = choose|i: int| 0 <= i < t.len() && f((#[trigger] t[i]).1) == e;
                assert(f(s[i].1) == e);
            }
        }
        if exists|i: int| 0 <= i < s.len() && f((#[trigger] s[i]).1) == e {
            let i = choose|i: int| 0 <= i < s.len() && f((#[trigger] s[i]).1) == e;
            if i == s.len() - 1 {
                assert(map_of(s).contains_key(s.last().0) && f(map_of(s)[s.last().0]) == e);
            } else {
                assert(t[i] == s[i]);
                let id = choose|id: u128|
                    #[trigger] map_of(t).contains_key(id) && f(map_of(t)[id]) == e;
                if id == s.last().0 {
                    lemma_map_of_contains(t, id);
                    let j = choose|j: int| 0 <= j < t.len() && (#[trigger] t[j]).0 == id;
                    assert(s[j].0 == s[s.len() - 1].0);
                    assert(false);
                }
                assert(map_of(s).contains_key(id) && f(map_of(s)[id]) == e);
            }
        }
    }
}

/// Insert or replace the record for `key` in the users vector.
fn user_upsert(entries: &mut Vec<(u128, UserDTO)>, key: u128, value: UserDTO)
    requires
        unique_keys(old(entries)@),
    ensures
        unique_keys(final(entries)@),
        map_of(final(entries)@) == map_of(old(entries)@).insert(key, value),
{
    let n = entries.len();
    let mut i: usize = 0;
    while i < n
        invariant
            unique_keys(entries@),
            entries@ == old(entries)@,
            n == entries@.len(),
            i <= n,
            forall|j: int| 0 <= j < i ==> (#[trigger] entries@[j]).0 != key,
        decreases n - i,
    {
        if entries[i].0 == key {
            let ghost prev = entries@;
            entries[i] = (key, value);
            proof {
                lemma_map_of_update(prev, i as int, key, value);
            }
            return;
        }
        i += 1;
    }
    let ghost prev = entries@;
    entries.push((key, value));
    proof {
        lemma_unique_keys_push(prev, key, value);
        lemma_map_of_push(prev, key, value);
    }
}

/// The record stored for `key` in the users vector, if any.
fn user_lookup(entries: &Vec<(u128, UserDTO)>, key: u128) -> (r: Option<UserDTO>)
    requires
        unique_keys(entries@),
    ensures
        r matches Some(u) ==> map_of(entries@).contains_key(key) && u == map_of(entries@)[key],
        r is None ==> !map_of(entries@).contains_key(key),
{
    let n = entries.len();
    let mut i: usize = 0;
    while i < n
        invariant
            unique_keys(entries@),
            n == entries@.len(),
            i <= n,
            forall|j: int| 0 <= j < i ==> (#[trigger] entries@[j]).0 != key,
        decreases n - i,
    {
        if entries[i].0 == key {
            proof {
                lemma_map_of_index(entries@, key, i as int);
            }
            return Some(entries[i].1.clone());
        }
        i += 1;
    }
    proof {
        lemma_map_of_contains(entries@, key);
    }
    None
}

/// The in-memory user store: user records and credentials, both keyed
/// by user id.
pub struct InMemoryUserRepository {
    users: Vec<(u128, UserDTO)>,
    credentials: Vec<(u128, String)>,
}

impl Default for InMemoryUserRepository {
    /// An empty store.
    fn default() -> (r: Self)
        ensures
            r.inv(),
            r.users() == Map::<u128, UserDTO>::empty(),
            r.credentials() == Map::<u128, Seq<char>>::empty(),
    {
        let r = Self { users: Vec::new(), credentials: Vec::new() };
        proof {
            assert(kvs_u128_string(r.credentials@) =~= Seq::<(u128, Seq<char>)>::empty());
        }
        r
    }
}

impl InMemoryUserRepository {
    /// A store already holding the user a creation input describes.
    pub fn from_existing_user(dto: CreateUserDTO) -> (r: Self)
        ensures
            r.inv(),
            exists|u: UserDTO| #[trigger] user_from_create(u, dto) && r.users() == Map::<
                u128,
                UserDTO,
            >::empty().insert(dto.user_id, u),
            r.credentials() == Map::<u128, Seq<char>>::empty(),
    {
        let mut r = Self::default();
        let id = dto.user_id;
        let user = UserDTO::new(dto);
        let ghost gu = user;
        user_upsert(&mut r.users, id, user);
        proof {
            assert(user_from_create(gu, dto));
        }
        r
    }

    /// A store already holding the described user and its credentials.
    pub fn from_existing_user_with_credentials(dto: CreateUserDTO, credentials: CredentialsDTO)
        -> (r: Self)
        ensures
            r.inv(),
            exists|u: UserDTO| #[trigger] user_from_create(u, dto) && r.users() == Map::<
                u128,
                UserDTO,
            >::empty().insert(dto.user_id, u),
            r.credentials() == Map::<u128, Seq<char>>::empty().insert(
                credentials.user_id,
                credentials.password@,
            ),
    {
        let mut r = Self::from_existing_user(dto);
        u128_upsert(&mut r.credentials, credentials.user_id, credentials.password);
        r
    }
}

impl UsersRepository for InMemoryUserRepository {
    closed spec fn inv(&self) -> bool {
        unique_keys(self.users@) && unique_keys(kvs_u128_string(self.credentials@))
    }

    closed spec fn users(&self) -> Map<u128, UserDTO> {
        map_of(self.users@)
    }

    closed spec fn credentials(&self) -> Map<u128, Seq<char>> {
        map_of(kvs_u128_string(self.credentials@))
    }

    fn create(&mut self, dto: CreateUserDTO) -> (r: Result<(), ZwitterError>) {
        let id = dto.user_id;
        let user = UserDTO::new(dto);
        let ghost gu = user;
        user_upsert(&mut self.users, id, user);
        proof {
            assert(user_from_create(gu, dto));
        }
        Ok(())
    }

    fn create_with_credentials(&mut self, dto: CreateUserDTO, credentials: CredentialsDTO) -> (r:
        Result<(), ZwitterError>) {
        let id = dto.user_id;
        let user = UserDTO::new(dto);
        let ghost gu = user;
        user_upsert(&mut self.users, id, user);
        u128_upsert(&mut self.credentials, credentials.user_id, credentials.password);
        proof {
            assert(user_from_create(gu, dto));
        }
        Ok(())
    }

    fn get(&self, user_id: u128) -> (r: Result<UserDTO, ZwitterError>) {
        match user_lookup(&self.users, user_id) {
            Some(user) => Ok(user),
            None => Err(ZwitterError::not_found(String::from_str("USER_NOT_FOUND"))),
        }
    }

    fn email_exists(&self, email: &String) -> (r: Result<bool, ZwitterError>) {
        let n = self.users.len();
        let mut i: usize = 0;
        while i < n
            invariant
                unique_keys(self.users@),
                n == self.users@.len(),
                i <= n,
                forall|j: int| 0 <= j < i ==> (#[trigger] self.users@[j]).1.email@ != email@,
            decreases n - i,
        {
            if self.users[i].1.email.eq(email) {
                proof {
                    lemma_field_scan(self.users@, |u: UserDTO| u.email@, email@);
                }
                return Ok(true);
            }
            i += 1;
        }
        proof {
            lemma_field_scan(self.users@, |u: UserDTO| u.email@, email@);
        }
        Ok(false)
    }

    fn username_exists(&self, username: &String) -> (r: Result<bool, ZwitterError>) {
        let n = self.users.len();
        let mut i: usize = 0;
        while i < n
            invariant
                unique_keys(self.users@),
                n == self.users@.len(),
                i <= n,
                forall|j: int| 0 <= j < i ==> (#[trigger] self.users@[j]).1.username@ != username@,
            decreases n - i,
        {
            if self.users[i].1.username.eq(username) {
                proof {
                    lemma_field_scan(self.users@, |u: UserDTO| u.username@, username@);
                }
                return Ok(true);
            }
            i += 1;
        }
        proof {
            lemma_field_scan(self.users@, |u: UserDTO| u.username@, username@);
        }
        Ok(false)
    }
}

/// The in-memory outbound-mail collaborator: it only records what was
/// dispatched.
pub struct InMemoryEmailSenderRepository {
    log: Vec<(String, String)>,
}

impl Default for InMemoryEmailSenderRepository {
    /// A sender with an empty log.
    fn default() -> (r: Self)
        ensures
            r.inv(),
            r.sent() == Seq::<(Seq<char>, Seq<char>)>::empty(),
    {
        let r = Self { log: Vec::new() };
        proof {
            assert(kvs_string_string(r.log@) =~= Seq::<(Seq<char>, Seq<char>)>::empty());
        }
        r
    }
}

impl InMemoryEmailSenderRepository {
    /// The dispatched mails: address and code, in order.
    pub fn sent_log(&self) -> (r: &Vec<(String, String)>)
        ensures
            kvs_string_string(r@) == self.sent(),
    {
        &self.log
    }
}

impl EmailSenderRepository for InMemoryEmailSenderRepository {
    closed spec fn inv(&self) -> bool {
        true
    }

    closed spec fn sent(&self) -> Seq<(Seq<char>, Seq<char>)> {
        kvs_string_string(self.log@)
    }

    fn send_verify_email(&mut self, email: &String, code: &EmailVerificationCode) -> (r: Result<
        (),
        ZwitterError,
    >) {
        let ghost prev = self.log@;
        self.log.push((email.clone(), code.code.clone()));
        proof {
            assert(kvs_string_string(self.log@) =~= kvs_string_string(prev).push(
                (email@, code.code@),
            ));
        }
        Ok(())
    }
}

} // verus!
