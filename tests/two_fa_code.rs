use auth_service::domain::data_stores::{LoginAttemptId, TwoFACode};

#[test]
fn two_fa_code_parse_accepts_six_digits() {
    assert_eq!(TwoFACode::parse("012345".to_owned()).unwrap().as_ref(), "012345");
}

#[test]
fn two_fa_code_parse_rejects_wrong_length() {
    assert_eq!(
        TwoFACode::parse("12345".to_owned()),
        Err("Code must be exactly 6 digits".to_owned())
    );
    assert!(TwoFACode::parse("0".to_owned()).is_err());
    assert!(TwoFACode::parse("1234567".to_owned()).is_err());
}

#[test]
fn two_fa_code_parse_rejects_non_digits() {
    assert_eq!(
        TwoFACode::parse("12a456".to_owned()),
        Err("Code must contain only digits".to_owned())
    );
}

#[test]
fn two_fa_code_default_is_six_digits() {
    for _ in 0..20 {
        let code = TwoFACode::default();
        let s = code.as_ref();
        assert_eq!(s.len(), 6);
        assert!(s.chars().all(|c| c.is_ascii_digit()));
        assert!(TwoFACode::parse(s.to_owned()).is_ok());
    }
}

#[test]
fn login_attempt_id_parse_normalizes() {
    let id = LoginAttemptId::parse("0E57BC50-071E-4965-A60F-4F0B3137C8BB".to_owned()).unwrap();
    assert_eq!(id.as_ref(), "0e57bc50-071e-4965-a60f-4f0b3137c8bb");
    let simple = LoginAttemptId::parse("0e57bc50071e4965a60f4f0b3137c8bb".to_owned()).unwrap();
    assert_eq!(simple.as_ref(), "0e57bc50-071e-4965-a60f-4f0b3137c8bb");
}

#[test]
fn login_attempt_id_parse_rejects_bad() {
    assert!(LoginAttemptId::parse("bad".to_owned()).is_err());
    assert!(LoginAttemptId::parse(String::new()).is_err());
}

#[test]
fn login_attempt_id_default_is_fresh_uuid() {
    let a = LoginAttemptId::default();
    let b = LoginAttemptId::default();
    assert_eq!(a.as_ref().len(), 36);
    assert_ne!(a, b);
    let again = LoginAttemptId::parse(a.as_ref().to_owned()).unwrap();
    assert_eq!(again, a);
}

#[test]
fn two_fa_code_from_digits_writes_them_in_order() {
    let code = TwoFACode::from_digits(&vec![0, 4, 2, 9, 0, 1]);
    assert_eq!(code.as_ref(), "042901");
}

#[test]
fn login_attempt_id_canonical_text_parses_to_itself() {
    let text = "7d2f3a9e-5b1c-4e8a-9f6d-2c4b8a1e3f5d";
    assert_eq!(LoginAttemptId::parse(text.to_owned()).unwrap().as_ref(), text);
}
