use credentials::models::{
    optional_phone_number, optional_phone_number_string, AccountName, Address, AddressDetails,
    EmailAddress, FixedMobileNumbers, HashedPassword, JwtToken, PhoneNumber, PostalCode,
    Prefecture, PrefectureRecord, RawPassword, ValidationError, ACCOUNT_NAME_MAX_LENGTH,
    ACCOUNT_NAME_MIN_LENGTH,
};

#[test]
fn test_account_name_new() {
    let valid_names = vec![
        "0".repeat(ACCOUNT_NAME_MIN_LENGTH),
        "0".repeat(ACCOUNT_NAME_MAX_LENGTH),
    ];
    for name in valid_names {
        let result = AccountName::new(&name);
        assert!(result.is_ok());
        assert_eq!(result.unwrap().value(), name);
    }
}

#[test]
fn test_account_name_new_invalid() {
    let invalid_names = vec![
        "0".repeat(ACCOUNT_NAME_MIN_LENGTH - 1),
        "0".repeat(ACCOUNT_NAME_MAX_LENGTH + 1),
    ];
    for name in invalid_names {
        let result = AccountName::new(&name);
        assert!(result.is_err());
    }
}

#[test]
fn account_name_counts_characters_not_bytes() {
    assert!(AccountName::new("東京").is_ok());
    assert!(AccountName::new(&"東".repeat(20)).is_ok());
    assert!(AccountName::new(&"東".repeat(21)).is_err());
}

#[test]
fn test_raw_password_new() {
    let valid_password = "01abCD#$";
    let result = RawPassword::new(valid_password);
    assert!(result.is_ok());
    assert_eq!(result.unwrap().value(), valid_password);
}

#[test]
fn test_raw_password_new_invalid() {
    assert!(RawPassword::new("01abCD#").is_err());
    assert!(RawPassword::new("012345#$").is_err());
    assert!(RawPassword::new("01abcd#$").is_err());
    assert!(RawPassword::new("01ABCD#$").is_err());
    assert!(RawPassword::new("012346#$").is_err());
    assert!(RawPassword::new("01abCDef").is_err());
}

#[test]
fn raw_password_reports_the_first_failed_rule() {
    assert_eq!(RawPassword::new("01abCD#").unwrap_err(), ValidationError::PasswordTooShort);
    assert_eq!(RawPassword::new("012345#$").unwrap_err(), ValidationError::PasswordWithoutAlphabet);
    assert_eq!(RawPassword::new("01ABCD#$").unwrap_err(), ValidationError::PasswordWithoutLowercase);
    assert_eq!(RawPassword::new("01abcd#$").unwrap_err(), ValidationError::PasswordWithoutUppercase);
    assert_eq!(RawPassword::new("abcdEF#$").unwrap_err(), ValidationError::PasswordWithoutDigit);
    assert_eq!(RawPassword::new("01abCDef").unwrap_err(), ValidationError::PasswordWithoutSign);
    assert!(RawPassword::new("01abCD  ").is_ok());
}

#[test]
fn test_hashed_password_new_unchecked() {
    let hashed = "this-is-hashed-password";
    let value = HashedPassword::from_repository(hashed);
    assert_eq!(value.value(), hashed);
}

#[test]
fn test_optional_phone_number() {
    let value = "012-345-6789";
    let result = optional_phone_number(Some(value));
    assert!(result.is_ok());
    assert_eq!(result.unwrap().unwrap().value(), value);
}

#[test]
fn test_optional_phone_number_none() {
    let result = optional_phone_number(None);
    assert!(result.is_ok());
    assert!(result.unwrap().is_none());
}

#[test]
fn test_optional_phone_number_invalid() {
    let result = optional_phone_number(Some("invalid-number"));
    assert!(result.is_err());
}

#[test]
fn optional_phone_number_string_gives_the_text() {
    let number = PhoneNumber::new("090-1234-5678").unwrap();
    assert_eq!(optional_phone_number_string(Some(number)), Some("090-1234-5678".to_owned()));
    assert_eq!(optional_phone_number_string(None), None);
}

#[test]
fn test_fixed_mobile_phone_numbers_new() {
    let fixed = Some(PhoneNumber::new("012-345-6789").unwrap());
    let mobile = Some(PhoneNumber::new("090-1234-5678").unwrap());
    let result = FixedMobileNumbers::new(fixed.clone(), mobile.clone());
    assert!(result.is_ok());
    assert_eq!(
        result.as_ref().unwrap().fixed().unwrap().value(),
        fixed.clone().unwrap().value()
    );
    assert_eq!(
        result.as_ref().unwrap().mobile().unwrap().value(),
        mobile.clone().unwrap().value()
    );
    assert!(FixedMobileNumbers::new(fixed, None).is_ok());
    assert!(FixedMobileNumbers::new(None, mobile).is_ok());
}

#[test]
fn test_fixed_mobile_phone_numbers_new_invalid() {
    assert!(FixedMobileNumbers::new(None, None).is_err());
}

#[test]
fn test_jwt_token_new() {
    let token = "t";
    let result = JwtToken::new(token).unwrap();
    assert_eq!(result.value(), token);
}

#[test]
fn test_jwt_token_new_invalid() {
    let invalid_token = "";
    assert!(JwtToken::new(invalid_token).is_err());
}

#[test]
fn test_email_address_new() {
    let value = "email@example.com";
    let result = EmailAddress::new(value);
    assert!(result.is_ok());
    assert_eq!(result.unwrap().value(), value);
}

#[test]
fn test_email_address_new_invalid() {
    assert!(EmailAddress::new("@example.com").is_err());
}

#[test]
fn email_without_at_sign_is_rejected() {
    assert_eq!(
        EmailAddress::new("example.com").unwrap_err(),
        ValidationError::InvalidEmailAddress
    );
}

#[test]
fn test_phone_number_new() {
    let valid_number = "012-345-6789";
    let result = PhoneNumber::new(valid_number);
    assert!(result.is_ok());
    assert_eq!(result.unwrap().value(), valid_number);
}

#[test]
fn test_phone_number_new_invalid() {
    assert!(PhoneNumber::new("999-9999-9999").is_err());
}

#[test]
fn phone_number_group_lengths() {
    assert!(PhoneNumber::new("01-2-3456").is_ok());
    assert!(PhoneNumber::new("01234-5678-9012").is_ok());
    assert!(PhoneNumber::new("012345-678-9012").is_err());
    assert!(PhoneNumber::new("012-34567-8901").is_err());
    assert!(PhoneNumber::new("012-345-678").is_err());
    assert!(PhoneNumber::new("012-345-67890").is_err());
    assert!(PhoneNumber::new("0-345-6789").is_err());
    assert!(PhoneNumber::new("012-3a5-6789").is_err());
    assert!(PhoneNumber::new("").is_err());
}

#[test]
fn test_postal_code_new() {
    let valid_code = "500-8570";
    let result = PostalCode::new(valid_code);
    assert!(result.is_ok());
    assert_eq!(result.unwrap().value(), valid_code);
}

#[test]
fn test_postal_code_new_invalid() {
    assert!(PostalCode::new("00-0000").is_err());
}

#[test]
fn postal_code_shape() {
    assert!(PostalCode::new("5008570").is_err());
    assert!(PostalCode::new("500-857a").is_err());
    assert!(PostalCode::new("500-85701").is_err());
}

#[test]
fn test_prefecture_new() {
    let code = 12;
    let name = "東京都";
    let prefecture = Prefecture::new(code, name);
    assert_eq!(prefecture.code(), code);
    assert_eq!(prefecture.name(), name);
}

fn tokyo_model() -> PrefectureRecord {
    PrefectureRecord {
        code: 13,
        name: "東京都".to_owned(),
    }
}

#[test]
fn test_prefecture_from_model() {
    let model = tokyo_model();
    let prefecture = Prefecture::from(model);
    assert_eq!(prefecture.code(), 13);
    assert_eq!(prefecture.name(), "東京都");
}

#[test]
fn test_address_details_new() {
    let vec_details = vec!["新宿区西新宿2-8-1", "新宿"];
    for details in vec_details {
        let result = AddressDetails::new(details);
        assert!(result.is_ok());
        assert_eq!(result.unwrap().value(), details);
    }
}

#[test]
fn test_address_details_new_invalid() {
    assert!(PostalCode::new("0").is_err());
    assert!(PostalCode::new(&"0".repeat(101)).is_err());
}

#[test]
fn address_details_length_bounds() {
    assert!(AddressDetails::new("0").is_err());
    assert!(AddressDetails::new(&"0".repeat(100)).is_ok());
    assert_eq!(
        AddressDetails::new(&"0".repeat(101)).unwrap_err(),
        ValidationError::AddressDetailsLength
    );
}

#[test]
fn test_address_new() {
    let pref_code = 13;
    let pref_name = "東京都";
    let prefecture = Prefecture::new(pref_code, pref_name);
    let address_details = AddressDetails::new("新宿区西新宿2-8-1").unwrap();
    let address = Address::new(prefecture, address_details.clone());
    assert_eq!(address.prefecture().code(), pref_code);
    assert_eq!(address.prefecture().name(), pref_name);
    assert_eq!(address.details().value(), address_details.value());
}

#[test]
fn phone_and_postal_digits_of_any_script() {
    // Arabic-Indic one, Devanagari and fullwidth digits are decimal digits
    assert!(PhoneNumber::new("0\u{661}-1-1111").is_ok());
    assert!(PhoneNumber::new("0१२-३४५-६७८९").is_ok());
    assert!(PostalCode::new("\u{663}23-4567").is_ok());
    assert!(PostalCode::new("１２３-４５６７").is_ok());
    // other numerals are not decimal digits
    assert!(PostalCode::new("Ⅻ23-4567").is_err());
    assert!(PhoneNumber::new("0²-1-1111").is_err());
}
