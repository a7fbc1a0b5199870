use auth_service::domain::LoginAttemptId;
use auth_service::domain::TwoFACode;

#[test]
fn attempt_id_accepts_canonical_and_uppercase_forms() {
    assert!(LoginAttemptId::parse("123e4567-e89b-12d3-a456-426614174000".to_string()).is_ok());
    assert!(LoginAttemptId::parse("123E4567-E89B-12D3-A456-426614174000".to_string()).is_ok());
    assert!(LoginAttemptId::parse("00000000-0000-0000-0000-000000000000".to_string()).is_ok());
}

#[test]
fn attempt_id_rejects_wrong_shapes() {
    let bad = vec![
        "",
        "not-a-uuid",
        "123e4567e89b12d3a456426614174000",
        "123e4567-e89b-12d3-a456-42661417400",
        "123e4567-e89b-12d3-a456-4266141740000",
        "123e4567-e89b-12d3-a456_426614174000",
        "123e4567-e89b-12d3-a456-42661417400g",
    ];
    for s in bad {
        assert!(
            LoginAttemptId::parse(s.to_string()).is_err(),
            "expected '{}' to be rejected",
            s
        );
    }
}

#[test]
fn attempt_id_as_ref_returns_inner_string() {
    let text = "123e4567-e89b-12d3-a456-426614174000";
    let id = LoginAttemptId::parse(text.to_string()).unwrap();
    assert_eq!(id.as_ref(), text);
}

#[test]
fn two_fa_code_accepts_exactly_six_digits() {
    assert!(TwoFACode::parse("000000".to_string()).is_ok());
    assert!(TwoFACode::parse("123456".to_string()).is_ok());
    assert!(TwoFACode::parse("999999".to_string()).is_ok());
}

#[test]
fn two_fa_code_rejects_wrong_shapes() {
    let bad = vec!["", "12345", "1234567", "abcdef", "12345a", " 23456"];
    for s in bad {
        assert!(
            TwoFACode::parse(s.to_string()).is_err(),
            "expected '{}' to be rejected",
            s
        );
    }
}

#[test]
fn two_fa_code_as_ref_returns_inner_string() {
    let code = TwoFACode::parse("654321".to_string()).unwrap();
    assert_eq!(code.as_ref(), "654321");
}
