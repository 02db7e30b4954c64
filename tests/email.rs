use auth_service::domain::email::{Email, EmailError};

#[test]
fn test_parse_email() {
    let valid_email = String::from("jane.doe@example.org");
    let invalid_email = String::from("not an email");

    assert!(Email::parse(valid_email).is_ok());
    assert!(Email::parse(invalid_email).is_err());
}

#[test]
fn email_test_as_ref() {
    let email = Email::parse("valid@example.com".to_owned());
    assert!(email.is_ok());
    assert_eq!(email.unwrap().as_ref(), "valid@example.com");
}

#[test]
fn email_rejects_empty_and_missing_at() {
    assert_eq!(Email::parse(String::new()), Err(EmailError::InvalidEmail));
    assert_eq!(Email::parse("bad".to_owned()), Err(EmailError::InvalidEmail));
    assert_eq!(Email::parse("abc@".to_owned()), Err(EmailError::InvalidEmail));
}

#[test]
fn email_round_trips_text() {
    let e = Email::parse("Mixed.Case+tag@Example.COM".to_owned()).unwrap();
    assert_eq!(e.as_str(), "Mixed.Case+tag@Example.COM");
}
