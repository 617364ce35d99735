use zwitter::date::Date;
use zwitter::dtos::{CreateUserDTO, CredentialsDTO, SignupRequestDTO};
use zwitter::errors::ZwitterError;
use zwitter::features::signup_with_email::SignupWithEmail;
use zwitter::repositories::UsersRepository;
use zwitter::stores::InMemoryUserRepository;

const EMAIL: &str = "john.smith@gmail.com";
const USERNAME: &str = "john.smith";
const PASSWORD: &str = "qwerty123";

fn default_input() -> SignupRequestDTO {
    SignupRequestDTO {
        user_id: uuid::Uuid::new_v4().as_u128(),
        email: EMAIL.into(),
        username: USERNAME.into(),
        password: PASSWORD.into(),
        birthday: Date::parse("2015-09-05").unwrap(),
    }
}

fn existing_user(username: &str, email: &str) -> InMemoryUserRepository {
    let user_id = uuid::Uuid::new_v4().as_u128();
    let dto = CreateUserDTO {
        user_id,
        first_name: "John".into(),
        last_name: "Smith".into(),
        username: username.into(),
        birthday: Date::parse("2015-09-05").unwrap(),
        email: email.into(),
    };
    let credentials_dto = CredentialsDTO { user_id, password: PASSWORD.into() };
    InMemoryUserRepository::from_existing_user_with_credentials(dto, credentials_dto)
}

#[test]
fn signup_with_email_should_be_able_to_signup_with_email() {
    let mut signup_with_email =
        SignupWithEmail { users_repository: InMemoryUserRepository::default() };

    let input = default_input();

    let result = signup_with_email.execute(input);

    assert!(result.is_ok());
}

#[test]
fn signup_with_email_should_fail_if_a_user_with_given_email_already_exists() {
    let mut signup_with_email =
        SignupWithEmail { users_repository: existing_user(USERNAME, EMAIL) };

    let result = signup_with_email.execute(default_input());

    assert!(result.is_err());
    let err = result.unwrap_err();
    assert_eq!(err, ZwitterError::Domain("EMAIL_ALREADY_TAKEN".into()));
}

#[test]
fn should_fail_if_a_user_with_given_username_already_exists() {
    let mut signup_with_email =
        SignupWithEmail { users_repository: existing_user(USERNAME, "john.smith2@gmail.com") };

    let result = signup_with_email.execute(default_input());

    assert!(result.is_err());
    let err = result.unwrap_err();
    assert_eq!(err, ZwitterError::Domain("USERNAME_ALREADY_TAKEN".into()));
}

#[test]
fn signup_end_to_end_persists_user_and_renders_birthday() {
    let user_id = uuid::Uuid::parse_str("47578122-3977-438a-8e2c-1f1f4fe8b7ef")
        .unwrap()
        .as_u128();
    let input = SignupRequestDTO {
        user_id,
        email: EMAIL.into(),
        username: "johnsmith".into(),
        password: PASSWORD.into(),
        birthday: Date::parse("1991-12-29").unwrap(),
    };

    let mut signup_with_email =
        SignupWithEmail { users_repository: InMemoryUserRepository::default() };
    signup_with_email.execute(input).unwrap();

    let user = signup_with_email.users_repository.get(user_id).unwrap();
    assert_eq!(user.user_id, user_id);
    assert_eq!(user.birthday.format(), "1991-12-29");
}

#[test]
fn signup_rejects_a_short_password_with_field_detail() {
    let mut input = default_input();
    input.password = "short".into();

    let mut signup_with_email =
        SignupWithEmail { users_repository: InMemoryUserRepository::default() };
    let err = signup_with_email.execute(input).unwrap_err();

    match err {
        ZwitterError::Validation(code, errors) => {
            assert_eq!(code, "SIGNUP_EMAIL");
            assert_eq!(errors.len(), 1);
            assert_eq!(errors[0].field, "password");
            assert_eq!(errors[0].error, zwitter::errors::FieldValidationError::TooShort);
        },
        other => panic!("expected a validation error, got {:?}", other),
    }
}
