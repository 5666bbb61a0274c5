use credentials::accounts::{
    check_old_password, found_or, to_phone_number, validate_new_account, validate_passwords,
    validate_update_account, ErrorKind as AccountErrorKind, NewAccount, UpdateAccount,
};
use credentials::algorithm::PasswordHashFunc;
use credentials::auth::{authenticate_account, read_credential, Credential, ErrorKind};
use credentials::codec::DecodeError;
use credentials::hasher::{hash_password, PasswordConfig};
use credentials::models::{HashedPassword, RawPassword};
use credentials::salt::SaultProviderImpl;
use credentials::service::{authenticate, StoredCredential};

fn config() -> PasswordConfig {
    PasswordConfig {
        hash_func: PasswordHashFunc::SHA512,
        rounds: 3,
        sault_len: 12,
        pepper: "pep".to_owned(),
    }
}

fn stored(active: bool, password: &str) -> StoredCredential {
    let text = hash_password(&SaultProviderImpl, &config(), password);
    StoredCredential {
        is_active: active,
        password: HashedPassword::from_repository(&text),
    }
}

#[test]
fn authentication_collapses_failures() {
    let password = RawPassword::new("01abCD#$").unwrap();
    let missing: Option<(u32, StoredCredential)> = None;
    assert_eq!(authenticate(missing, &password, "pep"), Ok(None));
    let inactive = Some((7u32, stored(false, "01abCD#$")));
    assert_eq!(authenticate(inactive, &password, "pep"), Ok(None));
    let wrong = Some((7u32, stored(true, "99zzYY!!")));
    assert_eq!(authenticate(wrong, &password, "pep"), Ok(None));
    let right = Some((7u32, stored(true, "01abCD#$")));
    assert_eq!(authenticate(right, &password, "pep"), Ok(Some(7)));
}

#[test]
fn authentication_with_a_changed_pepper_fails() {
    let password = RawPassword::new("01abCD#$").unwrap();
    let right = Some((7u32, stored(true, "01abCD#$")));
    assert_eq!(authenticate(right, &password, "new pepper"), Ok(None));
}

#[test]
fn authentication_reports_a_corrupt_record() {
    let password = RawPassword::new("01abCD#$").unwrap();
    let corrupt = Some((
        1u32,
        StoredCredential { is_active: true, password: HashedPassword::from_repository("SHA-256$x$1$a$b") },
    ));
    assert_eq!(authenticate(corrupt, &password, "pep"), Err(DecodeError::InvalidRounds));
    let inactive_corrupt = Some((
        1u32,
        StoredCredential { is_active: false, password: HashedPassword::from_repository("junk") },
    ));
    assert_eq!(authenticate(inactive_corrupt, &password, "pep"), Ok(None));
}

#[test]
fn authentication_outcomes_map_to_errors() {
    assert_eq!(authenticate_account(Ok(Some(3u8))).unwrap(), 3);
    assert_eq!(authenticate_account::<u8>(Ok(None)).unwrap_err().code, ErrorKind::InvalidCredential);
    assert_eq!(
        authenticate_account::<u8>(Err(DecodeError::SaltTooShort)).unwrap_err().code,
        ErrorKind::InternalServerError
    );
}

#[test]
fn credentials_are_checked_email_first() {
    let ok = read_credential(&Credential { email: "a@example.com".to_owned(), password: "01abCD#$".to_owned() });
    assert!(ok.is_ok());
    let bad_both = read_credential(&Credential { email: "nope".to_owned(), password: "x".to_owned() });
    assert_eq!(bad_both.unwrap_err().code, ErrorKind::InvalidEmailAddress);
    let bad_password = read_credential(&Credential { email: "a@example.com".to_owned(), password: "x".to_owned() });
    assert_eq!(bad_password.unwrap_err().code, ErrorKind::InvalidPassword);
}

fn new_account() -> NewAccount {
    NewAccount {
        email: "foo@example.com".to_owned(),
        name: "foo".to_owned(),
        password: "01abCD#$".to_owned(),
        is_active: true,
        fixed_number: Some("012-345-6890".to_owned()),
        mobile_number: Some("090-1234-5678".to_owned()),
        postal_code: "012-3456".to_owned(),
        prefecture_code: 13,
        address_details: "新宿区西新宿2-8-1".to_owned(),
    }
}

#[test]
fn new_account_validation() {
    let valid = validate_new_account(&new_account()).unwrap();
    assert_eq!(valid.email.value(), "foo@example.com");
    assert_eq!(valid.name.value(), "foo");
    assert_eq!(valid.phone_numbers.fixed().unwrap().value(), "012-345-6890");
    assert_eq!(valid.prefecture_code, 13);
    let mut a = new_account();
    a.fixed_number = Some("bad".to_owned());
    a.mobile_number = Some("bad".to_owned());
    assert_eq!(validate_new_account(&a).unwrap_err().code, AccountErrorKind::InvalidFixedNumber);
    a.fixed_number = None;
    assert_eq!(validate_new_account(&a).unwrap_err().code, AccountErrorKind::InvalidMobileNumber);
    a.mobile_number = None;
    assert_eq!(validate_new_account(&a).unwrap_err().code, AccountErrorKind::InvalidPhoneNumbers);
    let mut b = new_account();
    b.postal_code = "0".to_owned();
    assert_eq!(validate_new_account(&b).unwrap_err().code, AccountErrorKind::InvalidPostalCode);
    b.address_details = "x".to_owned();
    assert_eq!(validate_new_account(&b).unwrap_err().code, AccountErrorKind::InvalidPostalCode);
    b.postal_code = "012-3456".to_owned();
    assert_eq!(validate_new_account(&b).unwrap_err().code, AccountErrorKind::InvalidAddressDetails);
    let mut c = new_account();
    c.password = "weak".to_owned();
    c.name = "f".to_owned();
    assert_eq!(validate_new_account(&c).unwrap_err().code, AccountErrorKind::InvalidName);
    c.name = "foo".to_owned();
    assert_eq!(validate_new_account(&c).unwrap_err().code, AccountErrorKind::InvalidPassword);
    c.email = "foo".to_owned();
    assert_eq!(validate_new_account(&c).unwrap_err().code, AccountErrorKind::InvalidEmailAddress);
}

#[test]
fn update_account_validation() {
    let update = UpdateAccount {
        id: "01D39ZY06FGSCTVN4T2V9PKHFZ".to_owned(),
        name: "bar".to_owned(),
        is_active: false,
        fixed_number: None,
        mobile_number: Some("090-1234-5678".to_owned()),
        postal_code: "100-0014".to_owned(),
        prefecture_code: 13,
        address_details: "千代田区永田町1-7-1".to_owned(),
    };
    let valid = validate_update_account(&update).unwrap();
    assert!(valid.phone_numbers.fixed().is_none());
    assert!(!valid.is_active);
    let mut bad = update.clone();
    bad.name = "b".repeat(21);
    assert_eq!(validate_update_account(&bad).unwrap_err().code, AccountErrorKind::InvalidName);
}

#[test]
fn phone_number_errors_name_the_number() {
    assert_eq!(to_phone_number(Some("x"), "fixed").unwrap_err().code, AccountErrorKind::InvalidFixedNumber);
    assert_eq!(to_phone_number(Some("x"), "mobile").unwrap_err().code, AccountErrorKind::InvalidMobileNumber);
    assert!(to_phone_number(None, "fixed").unwrap().is_none());
}

#[test]
fn password_change_checks() {
    assert_eq!(validate_passwords("x", "y").unwrap_err().code, AccountErrorKind::InvalidOldPassword);
    assert_eq!(validate_passwords("01abCD#$", "y").unwrap_err().code, AccountErrorKind::InvalidNewPassword);
    assert!(validate_passwords("01abCD#$", "99zzYY!!").is_ok());
    assert!(check_old_password(Ok(true)).is_ok());
    assert_eq!(check_old_password(Ok(false)).unwrap_err().code, AccountErrorKind::WrongPassword);
    assert_eq!(
        check_old_password(Err(DecodeError::MissingRounds)).unwrap_err().code,
        AccountErrorKind::InternalServerError
    );
}

#[test]
fn lookups_map_to_errors() {
    assert_eq!(found_or(Ok(Some(5u8)), AccountErrorKind::NotFound).unwrap(), 5);
    assert_eq!(
        found_or::<u8>(Ok(None), AccountErrorKind::PrefectureNotFound).unwrap_err().code,
        AccountErrorKind::PrefectureNotFound
    );
    let failed = found_or::<u8>(Err("connection lost".to_owned()), AccountErrorKind::NotFound).unwrap_err();
    assert_eq!(failed.code, AccountErrorKind::InternalServerError);
    assert_eq!(failed.message, "connection lost");
}

#[test]
fn refused_sign_ins_share_one_message() {
    let password = RawPassword::new("01abCD#$").unwrap();
    let cases: Vec<Option<(u32, StoredCredential)>> = vec![
        None,
        Some((1, stored(false, "01abCD#$"))),
        Some((1, stored(true, "99zzYY!!"))),
    ];
    let mut messages = Vec::new();
    for found in cases {
        let err = authenticate_account(authenticate(found, &password, "pep")).unwrap_err();
        assert_eq!(err.code, ErrorKind::InvalidCredential);
        messages.push(err.message);
    }
    assert_eq!(messages[0], "the email address or the password is wrong");
    assert_eq!(messages[0], messages[1]);
    assert_eq!(messages[1], messages[2]);
}
