//! Input validation: field-level shape checks over the signup and
//! user-creation inputs, each failure reported with per-field detail.
use vstd::prelude::*;
use vstd::string::*;

use crate::date::Date;
use crate::dtos::{CreateUserDTO, EmailVerificationDTO, SignupEmailDTO, SignupRequestDTO};
use crate::errors::{FieldError, FieldValidationError};

verus! {

/// Whether a string is a well-formed e-mail address, as the validator
/// crate's HTML5-shape check decides it.
pub uninterp spec fn email_ok(s: Seq<char>) -> bool;

/// Relies on validator's `ValidateEmail::validate_email`, the HTML5
/// e-mail shape check: the result depends on the characters of the
/// string alone, and an empty string is never accepted.
#[verifier::external_body]
fn check_email(email: &String) -> (r: bool)
    ensures
        r == email_ok(email@),
        email@.len() == 0 ==> r == false,
{
    validator::ValidateEmail::validate_email(email)
}

/// The verdict of a length rule: too short below `min`, too long above
/// `max`, nothing in between.
pub open spec fn length_model(
    field: Seq<char>,
    s: Seq<char>,
    min: int,
    max: int,
) -> Seq<(Seq<char>, FieldValidationError)> {
    if s.len() < min {
        seq![(field, FieldValidationError::TooShort)]
    } else if s.len() > max {
        seq![(field, FieldValidationError::TooLong)]
    } else {
        Seq::empty()
    }
}

/// The verdict of the e-mail rule on a field.
pub open spec fn email_model(field: Seq<char>, s: Seq<char>) -> Seq<
    (Seq<char>, FieldValidationError),
> {
    if email_ok(s) {
        Seq::empty()
    } else {
        seq![(field, FieldValidationError::BadFormat)]
    }
}

/// The verdict of the calendar rule on a date field.
pub open spec fn date_model(field: Seq<char>, d: Date) -> Seq<
    (Seq<char>, FieldValidationError),
> {
    if d.is_valid() {
        Seq::empty()
    } else {
        seq![(field, FieldValidationError::BadFormat)]
    }
}

/// The reported field errors carry exactly the modelled field names and
/// error kinds, in order.
pub open spec fn field_errors_match(
    es: Seq<FieldError>,
    m: Seq<(Seq<char>, FieldValidationError)>,
) -> bool {
    &&& es.len() == m.len()
    &&& forall|i: int|
        0 <= i < es.len() ==> (#[trigger] es[i]).field@ == m[i].0 && es[i].error == m[i].1
}

/// `after` extends `before` by exactly the errors the model `m` lists.
pub open spec fn appended_match(
    before: Seq<FieldError>,
    after: Seq<FieldError>,
    m: Seq<(Seq<char>, FieldValidationError)>,
) -> bool {
    &&& after.len() == before.len() + m.len()
    &&& forall|i: int| 0 <= i < before.len() ==> after[i] == before[i]
    &&& forall|i: int|
        0 <= i < m.len() ==> (#[trigger] after[before.len() + i]).field@ == m[i].0 && after[before.len()
            + i].error == m[i].1
}

/// Two extensions in a row append the concatenation of their models.
proof fn lemma_appended_match_chain(
    a: Seq<FieldError>,
    b: Seq<FieldError>,
    c: Seq<FieldError>,
    m1: Seq<(Seq<char>, FieldValidationError)>,
    m2: Seq<(Seq<char>, FieldValidationError)>,
)
    requires
        appended_match(a, b, m1),
        appended_match(b, c, m2),
    ensures
        appended_match(a, c, m1 + m2),
{
    assert forall|i: int| 0 <= i < (m1 + m2).len() implies (#[trigger] c[a.len() + i]).field@ == (m1
        + m2)[i].0 && c[a.len() + i].error == (m1 + m2)[i].1 by {
        if i < m1.len() {
            assert(c[a.len() + i] == b[a.len() + i]);
        } else {
            assert(c[a.len() + i] == c[b.len() + (i - m1.len())]);
        }
    }
}

/// An extension of the empty list matches its model outright.
proof fn lemma_appended_match_from_empty(
    es: Seq<FieldError>,
    m: Seq<(Seq<char>, FieldValidationError)>,
)
    requires
        appended_match(Seq::empty(), es, m),
    ensures
        field_errors_match(es, m),
{
    assert forall|i: int| 0 <= i < es.len() implies (#[trigger] es[i]).field@ == m[i].0
        && es[i].error == m[i].1 by {
        assert(es[0 + i] == es[i]);
    }
}

/// Append the length verdict on a field to the running error list.
fn check_length(
    errors: &mut Vec<FieldError>,
    field_name: &str,
    s: &String,
    min: usize,
    max: usize,
)
    ensures
        appended_match(
            old(errors)@,
            final(errors)@,
            length_model(field_name@, s@, min as int, max as int),
        ),
{
    let n = s.as_str().unicode_len();
    if n < min {
        errors.push(
            FieldError { field: String::from_str(field_name), error: FieldValidationError::TooShort },
        );
    } else if n > max {
        errors.push(
            FieldError { field: String::from_str(field_name), error: FieldValidationError::TooLong },
        );
    }
}

/// Append the e-mail verdict on a field to the running error list.
fn check_email_field(errors: &mut Vec<FieldError>, field_name: &str, s: &String)
    ensures
        appended_match(old(errors)@, final(errors)@, email_model(field_name@, s@)),
{
    if !check_email(s) {
        errors.push(
            FieldError { field: String::from_str(field_name), error: FieldValidationError::BadFormat },
        );
    }
}

/// Append the calendar verdict on a date field to the running error list.
fn check_date_field(errors: &mut Vec<FieldError>, field_name: &str, d: &Date)
    ensures
        appended_match(old(errors)@, final(errors)@, date_model(field_name@, *d)),
{
    if !d.check_valid() {
        errors.push(
            FieldError { field: String::from_str(field_name), error: FieldValidationError::BadFormat },
        );
    }
}

/// A first-step signup input is valid when its address is well-formed.
pub open spec fn signup_email_valid(i: SignupEmailDTO) -> bool {
    email_ok(i.email@)
}

/// The field errors a first-step signup input earns.
pub open spec fn signup_email_error_model(i: SignupEmailDTO) -> Seq<
    (Seq<char>, FieldValidationError),
> {
    email_model("email"@, i.email@)
}

/// Validate a first-step signup input: succeeds exactly on valid inputs,
/// otherwise reports exactly the broken rules.
pub fn validate_signup_email(input: &SignupEmailDTO) -> (r: Result<(), Vec<FieldError>>)
    ensures
        r is Ok <==> signup_email_valid(*input),
        r matches Err(es) ==> field_errors_match(es@, signup_email_error_model(*input))
            && es@.len() > 0,
{
    let mut errors: Vec<FieldError> = Vec::new();
    check_email_field(&mut errors, "email", &input.email);
    proof {
        lemma_appended_match_from_empty(errors@, signup_email_error_model(*input));
    }
    if errors.len() == 0 {
        Ok(())
    } else {
        Err(errors)
    }
}

/// A code-validation input is valid when its address is well-formed; the
/// presented code is matched, not shape-checked.
pub open spec fn email_verification_valid(i: EmailVerificationDTO) -> bool {
    email_ok(i.email@)
}

/// The field errors a code-validation input earns.
pub open spec fn email_verification_error_model(i: EmailVerificationDTO) -> Seq<
    (Seq<char>, FieldValidationError),
> {
    email_model("email"@, i.email@)
}

/// Validate a code-validation input: succeeds exactly on valid inputs,
/// otherwise reports exactly the broken rules.
pub fn validate_email_verification(input: &EmailVerificationDTO) -> (r: Result<
    (),
    Vec<FieldError>,
>)
    ensures
        r is Ok <==> email_verification_valid(*input),
        r matches Err(es) ==> field_errors_match(es@, email_verification_error_model(*input))
            && es@.len() > 0,
{
    let mut errors: Vec<FieldError> = Vec::new();
    check_email_field(&mut errors, "email", &input.email);
    proof {
        lemma_appended_match_from_empty(errors@, email_verification_error_model(*input));
    }
    if errors.len() == 0 {
        Ok(())
    } else {
        Err(errors)
    }
}

/// A user-creation input is valid when the names and the username have
/// their allowed lengths, the birthday is a calendar date, and the
/// address is well-formed.
pub open spec fn create_user_valid(i: CreateUserDTO) -> bool {
    &&& 1 <= i.first_name@.len() <= 50
    &&& 1 <= i.last_name@.len() <= 100
    &&& 3 <= i.username@.len() <= 24
    &&& i.birthday.is_valid()
    &&& email_ok(i.email@)
}

/// The field errors a user-creation input earns, in field order.
pub open spec fn create_user_error_model(i: CreateUserDTO) -> Seq<
    (Seq<char>, FieldValidationError),
> {
    length_model("first_name"@, i.first_name@, 1, 50) + length_model(
        "last_name"@,
        i.last_name@,
        1,
        100,
    ) + length_model("username"@, i.username@, 3, 24) + date_model("birthday"@, i.birthday)
        + email_model("email"@, i.email@)
}

/// Validate a user-creation input: succeeds exactly on valid inputs,
/// otherwise reports exactly the broken rules, in field order.
pub fn validate_create_user(input: &CreateUserDTO) -> (r: Result<(), Vec<FieldError>>)
    ensures
        r is Ok <==> create_user_valid(*input),
        r matches Err(es) ==> field_errors_match(es@, create_user_error_model(*input))
            && es@.len() > 0,
{
    let mut errors: Vec<FieldError> = Vec::new();
    let ghost e0 = errors@;
    check_length(&mut errors, "first_name", &input.first_name, 1, 50);
    let ghost e1 = errors@;
    check_length(&mut errors, "last_name", &input.last_name, 1, 100);
    let ghost e2 = errors@;
    check_length(&mut errors, "username", &input.username, 3, 24);
    let ghost e3 = errors@;
    check_date_field(&mut errors, "birthday", &input.birthday);
    let ghost e4 = errors@;
    check_email_field(&mut errors, "email", &input.email);
    proof {
        let m0 = length_model("first_name"@, input.first_name@, 1, 50);
        let m1 = length_model("last_name"@, input.last_name@, 1, 100);
        let m2 = length_model("username"@, input.username@, 3, 24);
        let m3 = date_model("birthday"@, input.birthday);
        let m4 = email_model("email"@, input.email@);
        lemma_appended_match_chain(e0, e1, e2, m0, m1);
        lemma_appended_match_chain(e0, e2, e3, m0 + m1, m2);
        lemma_appended_match_chain(e0, e3, e4, m0 + m1 + m2, m3);
        lemma_appended_match_chain(e0, e4, errors@, m0 + m1 + m2 + m3, m4);
        lemma_appended_match_from_empty(errors@, create_user_error_model(*input));
    }
    if errors.len() == 0 {
        Ok(())
    } else {
        Err(errors)
    }
}

/// A single-step signup input is valid when the username and password
/// have their allowed lengths, the birthday is a calendar date, and the
/// address is well-formed.
pub open spec fn signup_request_valid(i: SignupRequestDTO) -> bool {
    &&& 3 <= i.username@.len() <= 42
    &&& 8 <= i.password@.len() <= 256
    &&& i.birthday.is_valid()
    &&& email_ok(i.email@)
}

/// The field errors a single-step signup input earns, in field order.
pub open spec fn signup_request_error_model(i: SignupRequestDTO) -> Seq<
    (Seq<char>, FieldValidationError),
> {
    length_model("username"@, i.username@, 3, 42) + length_model(
        "password"@,
        i.password@,
        8,
        256,
    ) + date_model("birthday"@, i.birthday) + email_model("email"@, i.email@)
}

/// Validate a single-step signup input: succeeds exactly on valid
/// inputs, otherwise reports exactly the broken rules, in field order.
pub fn validate_signup_request(input: &SignupRequestDTO) -> (r: Result<(), Vec<FieldError>>)
    ensures
        r is Ok <==> signup_request_valid(*input),
        r matches Err(es) ==> field_errors_match(es@, signup_request_error_model(*input))
            && es@.len() > 0,
{
    let mut errors: Vec<FieldError> = Vec::new();
    let ghost e0 = errors@;
    check_length(&mut errors, "username", &input.username, 3, 42);
    let ghost e1 = errors@;
    check_length(&mut errors, "password", &input.password, 8, 256);
    let ghost e2 = errors@;
    check_date_field(&mut errors, "birthday", &input.birthday);
    let ghost e3 = errors@;
    check_email_field(&mut errors, "email", &input.email);
    proof {
        let m0 = length_model("username"@, input.username@, 3, 42);
        let m1 = length_model("password"@, input.password@, 8, 256);
        let m2 = date_model("birthday"@, input.birthday);
        let m3 = email_model("email"@, input.email@);
        lemma_appended_match_chain(e0, e1, e2, m0, m1);
        lemma_appended_match_chain(e0, e2, e3, m0 + m1, m2);
        lemma_appended_match_chain(e0, e3, errors@, m0 + m1 + m2, m3);
        lemma_appended_match_from_empty(errors@, signup_request_error_model(*input));
    }
    if errors.len() == 0 {
        Ok(())
    } else {
        Err(errors)
    }
}

} // verus!
