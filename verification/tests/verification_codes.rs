use zwitter::verification_code::EmailVerificationCode;

#[test]
fn should_be_able_to_generate_random_6_char_code() {
    let email_verification_code_1 = EmailVerificationCode::default();
    assert_eq!(email_verification_code_1.code.len(), 6);

    let email_verification_code_2 = EmailVerificationCode::default();
    assert_eq!(email_verification_code_2.code.len(), 6);

    // Can be flaky, but low chance.
    // 36^6 possibilities, which comes out to about 2.17 billion unique combinations.
    assert_ne!(email_verification_code_1, email_verification_code_2);
}

#[test]
fn should_succeed_from_str_code() {
    assert!(EmailVerificationCode::from_str("AAAAAA".into()).is_ok());
    assert!(EmailVerificationCode::from_str("ZZZZZZ".into()).is_ok());
    assert!(EmailVerificationCode::from_str("123ABC".into()).is_ok());
    assert!(EmailVerificationCode::from_str("ABC123".into()).is_ok());
    assert!(EmailVerificationCode::from_str("123456".into()).is_ok());
}

#[test]
fn should_fail_from_str_code() {
    assert!(EmailVerificationCode::from_str("A".into()).is_err());
    assert!(EmailVerificationCode::from_str("AAAAA".into()).is_err());
    assert!(EmailVerificationCode::from_str("AAAAAAA".into()).is_err());
    assert!(EmailVerificationCode::from_str("aaaaaa".into()).is_err());
    assert!(EmailVerificationCode::from_str("zzzzzz".into()).is_err());
    assert!(EmailVerificationCode::from_str("!!!!!!".into()).is_err());
}

#[test]
fn generated_code_always_parses_back() {
    for _ in 0..32 {
        let generated = EmailVerificationCode::default();
        let parsed = EmailVerificationCode::from_str(generated.code.clone()).unwrap();
        assert_eq!(parsed, generated);
    }
}

#[test]
fn generated_code_uses_only_uppercase_alphanumerics() {
    for _ in 0..32 {
        let generated = EmailVerificationCode::default();
        assert_eq!(generated.code.chars().count(), 6);
        assert!(generated.code.chars().all(|c| c.is_ascii_uppercase() || c.is_ascii_digit()));
    }
}

#[test]
fn rejected_code_reports_invalid() {
    let err = EmailVerificationCode::from_str("abc".into()).unwrap_err();
    assert_eq!(err, "Invalid code");
}
