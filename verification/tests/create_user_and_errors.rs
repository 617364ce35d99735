use zwitter::date::Date;
use zwitter::dtos::CreateUserDTO;
use zwitter::errors::{FieldError, FieldValidationError, TechnicalErrors, ZwitterError};
use zwitter::features::create_user::CreateUser;
use zwitter::repositories::UsersRepository;
use zwitter::stores::InMemoryUserRepository;
use zwitter::validation::{validate_create_user, validate_signup_email};
use zwitter::dtos::SignupEmailDTO;

fn field_error(field: &str, error: FieldValidationError) -> FieldError {
    FieldError { field: field.into(), error }
}

#[test]
fn should_return_validation_errors() {
    let mut create_user = CreateUser { users_repository: InMemoryUserRepository::default() };

    let create_user_dto = CreateUserDTO {
        user_id: uuid::Uuid::parse_str("47578122-3977-438a-8e2c-1f1f4fe8b7ef")
            .unwrap()
            .as_u128(),
        first_name: "".into(),
        last_name: "SmithSmithSmithSmithSmithSmithSmithSmithSmithSmithSmithSmithSmithSmith".into(),
        username: "jo".into(),
        birthday: Date::parse("1993-12-29").unwrap(),
        email: "john.smith".into(),
    };

    let result = create_user.execute(create_user_dto);

    assert!(result.is_err());

    let error = result.unwrap_err();

    let expected_error = ZwitterError::Validation(
        "CREATE_USER".into(),
        vec![
            field_error("first_name", FieldValidationError::TooShort),
            field_error("username", FieldValidationError::TooShort),
            field_error("email", FieldValidationError::BadFormat),
        ],
    );
    assert_eq!(error, expected_error)
}

#[test]
fn should_be_able_create_a_user() {
    let mut create_user = CreateUser { users_repository: InMemoryUserRepository::default() };

    let user_id = uuid::Uuid::parse_str("47578122-3977-438a-8e2c-1f1f4fe8b7ef")
        .unwrap()
        .as_u128();
    let create_user_dto = CreateUserDTO {
        user_id,
        first_name: "John".into(),
        last_name: "Smith".into(),
        username: "johnsmith".into(),
        birthday: Date::parse("1991-12-29").unwrap(),
        email: "john.smith@gmail.com".into(),
    };

    let result = create_user.execute(create_user_dto);

    assert!(result.is_ok());

    let user_dto = create_user.users_repository.get(user_id).unwrap();

    assert_eq!(user_dto.user_id, user_id);
    assert_eq!(user_dto.birthday.format(), "1991-12-29");
}

#[test]
fn created_user_stamps_equal_instants() {
    let mut create_user = CreateUser { users_repository: InMemoryUserRepository::default() };
    let user_id = uuid::Uuid::new_v4().as_u128();
    let dto = CreateUserDTO {
        user_id,
        first_name: "John".into(),
        last_name: "Smith".into(),
        username: "johnsmith".into(),
        birthday: Date::parse("1991-12-29").unwrap(),
        email: "john.smith@gmail.com".into(),
    };
    create_user.execute(dto).unwrap();
    let user = create_user.users_repository.get(user_id).unwrap();
    assert_eq!(user.created_at, user.updated_at);
}

#[test]
fn status_codes_follow_the_taxonomy() {
    assert_eq!(ZwitterError::Domain("EMAIL_ALREADY_TAKEN".into()).status_code(), 502);
    assert_eq!(ZwitterError::not_found("TEMPORARY_USER_NOT_FOUND".into()).status_code(), 404);
    assert_eq!(ZwitterError::Technical(TechnicalErrors::Unknown).status_code(), 500);
    assert_eq!(ZwitterError::Unexpected("OOPS".into()).status_code(), 500);
    assert_eq!(ZwitterError::Validation("CREATE_USER".into(), Vec::new()).status_code(), 400);
}

#[test]
fn not_found_wraps_the_code() {
    let err = ZwitterError::not_found("USER_NOT_FOUND".into());
    assert_eq!(err, ZwitterError::Technical(TechnicalErrors::NotFound("USER_NOT_FOUND".into())));
}

#[test]
fn email_validation_accepts_and_rejects() {
    assert!(validate_signup_email(&SignupEmailDTO { email: "a@b.com".into() }).is_ok());

    let errors =
        validate_signup_email(&SignupEmailDTO { email: "john.smith".into() }).unwrap_err();
    assert_eq!(errors.len(), 1);
    assert_eq!(errors[0].field, "email");
    assert_eq!(errors[0].error, FieldValidationError::BadFormat);

    let errors = validate_signup_email(&SignupEmailDTO { email: "".into() }).unwrap_err();
    assert_eq!(errors.len(), 1);
}

#[test]
fn username_length_bounds_are_exact() {
    let dto = |username: &str| CreateUserDTO {
        user_id: 1,
        first_name: "John".into(),
        last_name: "Smith".into(),
        username: username.into(),
        birthday: Date::parse("1991-12-29").unwrap(),
        email: "a@b.com".into(),
    };
    assert!(validate_create_user(&dto("abc")).is_ok());
    assert!(validate_create_user(&dto("abcdefghijklmnopqrstuvwx")).is_ok());

    let errors = validate_create_user(&dto("ab")).unwrap_err();
    assert_eq!(errors.len(), 1);
    assert_eq!(errors[0].field, "username");
    assert_eq!(errors[0].error, FieldValidationError::TooShort);

    let errors = validate_create_user(&dto("abcdefghijklmnopqrstuvwxy")).unwrap_err();
    assert_eq!(errors.len(), 1);
    assert_eq!(errors[0].field, "username");
    assert_eq!(errors[0].error, FieldValidationError::TooLong);
}
