use auth_service::domain::Email;
use fake::faker::internet::en::SafeEmail;
use fake::Fake;

#[test]
fn valid_emails_are_parsed_successfully() {
    let valid_emails = vec![
        "user@example.com",
        "test.email@domain.co.uk",
        "firstname.lastname@company.org",
        "email+tag@example.com",
        "user123@test-domain.com",
    ];

    for email in valid_emails {
        assert!(Email::parse(email.to_string()).is_ok());
    }
}

#[test]
fn invalid_emails_are_rejected() {
    let invalid_emails = vec![
        "",
        "not-an-email",
        "@example.com",
        "user@",
        "user @example.com",
    ];

    for email in invalid_emails {
        assert!(
            Email::parse(email.to_string()).is_err(),
            "Expected '{}' to be invalid, but it was accepted",
            email
        );
    }
}

#[test]
fn fake_emails_are_valid() {
    for _ in 0..100 {
        let email: String = SafeEmail().fake();
        assert!(Email::parse(email).is_ok());
    }
}

#[test]
fn email_as_ref_returns_inner_string() {
    let email_str = "test@example.com";
    let email = Email::parse(email_str.to_string()).unwrap();
    assert_eq!(email.as_ref(), email_str);
}

#[test]
fn address_literal_with_line_feed_is_rejected() {
    // The HTML5 check's address-literal fallback is anchored only at
    // the end, so it tolerates a line feed ahead of a bracketed IP
    // domain; the library rejects the address anyway, since the token
    // format reserves that character.
    assert!(Email::parse("a@\n[127.0.0.1]".to_string()).is_err());
}
