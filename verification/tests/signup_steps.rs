use zwitter::date::Date;
use zwitter::dtos::{CreateUserDTO, EmailVerificationDTO, SignupEmailDTO};
use zwitter::errors::ZwitterError;
use zwitter::features::s01_send_email_verification_code::SendEmailVerificationCode;
use zwitter::features::s02_validate_email_verification_code::ValidateEmailVerificationCode;
use zwitter::features::s03_create_user;
use zwitter::repositories::{EmailVerificationRepository, UsersRepository};
use zwitter::stores::{
    InMemoryEmailSenderRepository, InMemoryEmailVerificationRepository, InMemoryTmpUsersRepository,
    InMemoryUserRepository,
};
use zwitter::verification_code::EmailVerificationCode;

const EMAIL: &str = "john.smith@gmail.com";

fn fresh_s01() -> SendEmailVerificationCode<
    InMemoryUserRepository,
    InMemoryEmailVerificationRepository,
    InMemoryEmailSenderRepository,
> {
    SendEmailVerificationCode {
        users_repository: InMemoryUserRepository::default(),
        email_verifications_repository: InMemoryEmailVerificationRepository::default(),
        email_sender_repository: InMemoryEmailSenderRepository::default(),
        code_ttl_seconds: 3600,
    }
}

fn john_dto(email: &str) -> CreateUserDTO {
    CreateUserDTO {
        user_id: uuid::Uuid::new_v4().as_u128(),
        first_name: "John".into(),
        last_name: "Smith".into(),
        username: "johnsmith".into(),
        birthday: Date::parse("2015-09-05").unwrap(),
        email: email.into(),
    }
}

#[test]
fn should_be_able_to_complete_step_01_signup_by_email() {
    let mut s01_send_email_verification_code = fresh_s01();

    let input = SignupEmailDTO { email: EMAIL.into() };

    let result = s01_send_email_verification_code.execute(input);

    assert!(result.is_ok());
}

#[test]
fn s01_send_email_verification_code_should_fail_if_a_user_with_given_email_already_exists() {
    let dto = john_dto(EMAIL);

    let mut s01 = fresh_s01();
    s01.users_repository = InMemoryUserRepository::from_existing_user(dto);

    let input = SignupEmailDTO { email: EMAIL.into() };

    let result = s01.execute(input);

    assert!(result.is_err());
    let err = result.unwrap_err();
    assert_eq!(err, ZwitterError::Domain("USER_ALREADY_EXISTS".into()));
}

#[test]
fn successful_step_01_stores_and_sends_exactly_one_code() {
    let mut s01 = fresh_s01();

    let input = SignupEmailDTO { email: EMAIL.into() };
    s01.execute(input).unwrap();

    let log = s01.email_sender_repository.sent_log();
    assert_eq!(log.len(), 1);
    let (sent_to, sent_code) = (log[0].0.clone(), log[0].1.clone());
    assert_eq!(sent_to, EMAIL);

    // the dispatched code is well-formed and is the one the store holds
    let code = EmailVerificationCode::from_str(sent_code).unwrap();
    let matches = s01
        .email_verifications_repository
        .code_matches(&EMAIL.to_string(), &code)
        .unwrap();
    assert!(matches);
}

#[test]
fn refused_step_01_stores_and_sends_nothing() {
    let mut s01 = fresh_s01();
    s01.users_repository = InMemoryUserRepository::from_existing_user(john_dto(EMAIL));

    let input = SignupEmailDTO { email: EMAIL.into() };
    assert!(s01.execute(input).is_err());

    assert_eq!(s01.email_sender_repository.sent_log().len(), 0);
    let any_code = EmailVerificationCode::from_str("ABC123".into()).unwrap();
    let matches = s01
        .email_verifications_repository
        .code_matches(&EMAIL.to_string(), &any_code)
        .unwrap();
    assert!(!matches);
}

#[test]
fn should_be_able_to_validate_email_verification_code() {
    let email_verification_code = EmailVerificationCode::default();
    let mut s02_validate_email_verification_code = ValidateEmailVerificationCode {
        users_repository: InMemoryUserRepository::default(),
        email_verifications_repository: InMemoryEmailVerificationRepository::from_email_and_code(
            EMAIL.into(),
            email_verification_code.clone(),
        ),
        tmp_users_repository: InMemoryTmpUsersRepository::default(),
    };

    let input = EmailVerificationDTO { email: EMAIL.into(), code: email_verification_code };
    let res = s02_validate_email_verification_code.execute(input);

    assert!(res.is_ok());
}

#[test]
fn should_fail_if_verification_code_is_different() {
    let email_verification_code = EmailVerificationCode::from_str("ABCDEF".into()).unwrap();
    let different_email_verification_code =
        EmailVerificationCode::from_str("123456".into()).unwrap();
    let mut s02_validate_email_verification_code = ValidateEmailVerificationCode {
        users_repository: InMemoryUserRepository::default(),
        email_verifications_repository: InMemoryEmailVerificationRepository::from_email_and_code(
            EMAIL.into(),
            email_verification_code,
        ),
        tmp_users_repository: InMemoryTmpUsersRepository::default(),
    };

    let input =
        EmailVerificationDTO { email: EMAIL.into(), code: different_email_verification_code };

    let res = s02_validate_email_verification_code.execute(input);

    assert!(res.is_err());
    assert_eq!(
        res.unwrap_err(),
        ZwitterError::Domain("INVALID_EMAIL_VERIFICATION_TOKEN".into())
    )
}

#[test]
fn validation_matches_only_the_most_recently_stored_code() {
    let first = EmailVerificationCode::from_str("AAAAAA".into()).unwrap();
    let second = EmailVerificationCode::from_str("BBBBBB".into()).unwrap();
    let mut store = InMemoryEmailVerificationRepository::default();
    store.store(&EMAIL.to_string(), &first, 3600).unwrap();
    store.store(&EMAIL.to_string(), &second, 3600).unwrap();

    assert!(!store.code_matches(&EMAIL.to_string(), &first).unwrap());
    assert!(store.code_matches(&EMAIL.to_string(), &second).unwrap());
}

#[test]
fn staged_identifier_carries_the_version_bits() {
    let code = EmailVerificationCode::default();
    let mut s02 = ValidateEmailVerificationCode {
        users_repository: InMemoryUserRepository::default(),
        email_verifications_repository: InMemoryEmailVerificationRepository::from_email_and_code(
            EMAIL.into(),
            code.clone(),
        ),
        tmp_users_repository: InMemoryTmpUsersRepository::default(),
    };
    let id = s02.execute(EmailVerificationDTO { email: EMAIL.into(), code }).unwrap();
    assert_eq!((id >> 76) & 0xf, 4);
    assert_eq!((id >> 62) & 0x3, 2);
}

#[test]
fn should_fail_to_create_user_if_no_tmp_user_exists() {
    let mut create_user = s03_create_user::CreateUser {
        users_repository: InMemoryUserRepository::default(),
        tmp_users_repository: InMemoryTmpUsersRepository::default(),
    };

    let input = CreateUserDTO {
        user_id: uuid::Uuid::new_v4().as_u128(),
        first_name: "john".into(),
        last_name: "smith".into(),
        username: "johnsmith".into(),
        birthday: Date::parse("1991-12-29").unwrap(),
        email: "john.smith@gmail.com".into(),
    };
    let res = create_user.execute(input);

    assert!(res.is_err());
    assert_eq!(
        res.unwrap_err(),
        ZwitterError::not_found("TEMPORARY_USER_NOT_FOUND".into())
    )
}

#[test]
fn step_03_fails_on_a_staged_email_mismatch() {
    let tmp_user_id = uuid::Uuid::new_v4().as_u128();
    let mut create_user = s03_create_user::CreateUser {
        users_repository: InMemoryUserRepository::default(),
        tmp_users_repository: InMemoryTmpUsersRepository::from_existing_tmp_user(
            tmp_user_id,
            "staged@example.com".into(),
        ),
    };

    let mut input = john_dto("other@example.com");
    input.user_id = tmp_user_id;
    let res = create_user.execute(input);

    assert!(res.is_err());
    assert_eq!(
        res.unwrap_err(),
        ZwitterError::Domain("CREATE_USER_EMAIL_MISMATCH".into())
    );
}

#[test]
fn three_steps_in_a_row_create_the_user() {
    // step 1: request a code for the address
    let mut s01 = fresh_s01();
    s01.execute(SignupEmailDTO { email: EMAIL.into() }).unwrap();
    let sent_code = s01.email_sender_repository.sent_log()[0].1.clone();
    let code = EmailVerificationCode::from_str(sent_code).unwrap();

    // step 2: prove the address with the dispatched code
    let mut s02 = ValidateEmailVerificationCode {
        users_repository: s01.users_repository,
        email_verifications_repository: s01.email_verifications_repository,
        tmp_users_repository: InMemoryTmpUsersRepository::default(),
    };
    let tmp_user_id = s02.execute(EmailVerificationDTO { email: EMAIL.into(), code }).unwrap();

    // step 3: complete the signup under the staged identifier
    let mut s03 = s03_create_user::CreateUser {
        users_repository: s02.users_repository,
        tmp_users_repository: s02.tmp_users_repository,
    };
    let mut input = john_dto(EMAIL);
    input.user_id = tmp_user_id;
    s03.execute(input).unwrap();

    let user = s03.users_repository.get(tmp_user_id).unwrap();
    assert_eq!(user.email, EMAIL);
    assert_eq!(user.username, "johnsmith");
}
