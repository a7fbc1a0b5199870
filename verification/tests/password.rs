use auth_service::domain::Password;

#[test]
fn valid_passwords_are_parsed_successfully() {
    let valid_passwords = vec![
        "password123",
        "very_long_password_with_many_characters",
        "12345678",
        "P@ssw0rd!",
    ];

    for password in valid_passwords {
        assert!(Password::parse(password.to_string()).is_ok());
    }
}

#[test]
fn short_passwords_are_rejected() {
    let short_passwords = vec!["", "1", "1234567", "seven77"];

    for password in short_passwords {
        assert!(Password::parse(password.to_string()).is_err());
    }
}

#[test]
fn exactly_8_chars_is_valid() {
    let password = "12345678";
    assert!(Password::parse(password.to_string()).is_ok());
}

#[test]
fn password_as_ref_returns_inner_string() {
    let password_str = "password123";
    let password = Password::parse(password_str.to_string()).unwrap();
    assert_eq!(password.as_ref(), password_str);
}
