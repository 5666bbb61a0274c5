use crate::codec::DecodeError;
use crate::models::{
    email_valid, optional_phone_number, phone_number_ok, phone_view, postal_code_ok,
    raw_password_check, AccountName, AddressDetails, EmailAddress, FixedMobileNumbers, PhoneNumber,
    PostalCode, RawPassword, ACCOUNT_NAME_MAX_LENGTH, ACCOUNT_NAME_MIN_LENGTH,
    ADDRESS_DETAILS_MAX_LENGTH, ADDRESS_DETAILS_MIN_LENGTH,
};
use vstd::prelude::*;
use vstd::string::*;

verus! {

/// The kinds of failure of the account operations.
#[derive(Clone, Copy, Debug, PartialEq, Eq, Structural)]
pub enum ErrorKind {
    InternalServerError,
    NotFound,
    PrefectureNotFound,
    InvalidAccountId,
    InvalidEmailAddress,
    InvalidName,
    InvalidPassword,
    WrongPassword,
    InvalidFixedNumber,
    InvalidMobileNumber,
    InvalidPhoneNumbers,
    InvalidPostalCode,
    InvalidAddressDetails,
    InvalidOldPassword,
    InvalidNewPassword,
}

/// A failure of an account operation, with a message for the caller.
#[derive(Clone, Debug)]
pub struct Error {
    pub code: ErrorKind,
    pub message: String,
}

/// The fields of an account to register.
#[derive(Clone, Debug)]
pub struct NewAccount {
    pub email: String,
    pub name: String,
    pub password: String,
    pub is_active: bool,
    pub fixed_number: Option<String>,
    pub mobile_number: Option<String>,
    pub postal_code: String,
    pub prefecture_code: u8,
    pub address_details: String,
}

/// The fields of an account to update.
#[derive(Clone, Debug)]
pub struct UpdateAccount {
    pub id: String,
    pub name: String,
    pub is_active: bool,
    pub fixed_number: Option<String>,
    pub mobile_number: Option<String>,
    pub postal_code: String,
    pub prefecture_code: u8,
    pub address_details: String,
}

/// A request to change an account's password.
#[derive(Clone, Debug)]
pub struct ChangePassword {
    pub id: String,
    pub old_password: String,
    pub new_password: String,
}

/// The checked values of an account to register.
#[derive(Clone, Debug)]
pub struct ValidNewAccount {
    pub email: EmailAddress,
    pub name: AccountName,
    pub password: RawPassword,
    pub is_active: bool,
    pub phone_numbers: FixedMobileNumbers,
    pub postal_code: PostalCode,
    pub prefecture_code: u8,
    pub address_details: AddressDetails,
}

/// The checked values of an account update.
#[derive(Clone, Debug)]
pub struct ValidUpdateAccount {
    pub name: AccountName,
    pub is_active: bool,
    pub phone_numbers: FixedMobileNumbers,
    pub postal_code: PostalCode,
    pub prefecture_code: u8,
    pub address_details: AddressDetails,
}

/// An internal failure, reported with the given message.
pub fn internal_error(message: String) -> (r: Error)
    ensures
        r.code == ErrorKind::InternalServerError,
        r.message == message,
{
    Error { code: ErrorKind::InternalServerError, message }
}

/// A failure of the given kind, reported with the given message.
pub fn usecase_error(code: ErrorKind, message: String) -> (r: Error)
    ensures
        r.code == code,
        r.message == message,
{
    Error { code, message }
}

/// Reads an email address.
pub fn to_email(value: &str) -> (r: Result<EmailAddress, Error>)
    ensures
        r is Ok <==> email_valid(value@),
        r matches Ok(e) ==> e@ == value@,
        r matches Err(e) ==> e.code == ErrorKind::InvalidEmailAddress,
{
    match EmailAddress::new(value) {
        Ok(v) => Ok(v),
        Err(_) => Err(
            usecase_error(
                ErrorKind::InvalidEmailAddress,
                String::from_str("the email address is not valid"),
            ),
        ),
    }
}

/// Reads an account name.
pub fn to_name(value: &str) -> (r: Result<AccountName, Error>)
    ensures
        r is Ok <==> ACCOUNT_NAME_MIN_LENGTH <= value@.len() <= ACCOUNT_NAME_MAX_LENGTH,
        r matches Ok(n) ==> n@ == value@,
        r matches Err(e) ==> e.code == ErrorKind::InvalidName,
{
    match AccountName::new(value) {
        Ok(v) => Ok(v),
        Err(_) => Err(
            usecase_error(
                ErrorKind::InvalidName,
                String::from_str("an account name has from 2 to 20 characters"),
            ),
        ),
    }
}

/// Reads a password.
pub fn to_raw_password(value: &str) -> (r: Result<RawPassword, Error>)
    ensures
        r is Ok <==> raw_password_check(value@) is Ok,
        r matches Ok(p) ==> p@ == value@,
        r matches Err(e) ==> e.code == ErrorKind::InvalidPassword,
{
    match RawPassword::new(value) {
        Ok(v) => Ok(v),
        Err(_) => Err(
            usecase_error(
                ErrorKind::InvalidPassword,
                String::from_str("the password breaks the password rules"),
            ),
        ),
    }
}

/// The text `fixed`, which names the fixed number.
pub open spec fn fixed_prefix() -> Seq<char> {
    seq!['f', 'i', 'x', 'e', 'd']
}

/// The error kind of a bad phone number: the fixed number's when `prefix` is
/// `fixed`, else the mobile number's.
pub open spec fn phone_error_kind(prefix: Seq<char>) -> ErrorKind {
    if prefix == fixed_prefix() {
        ErrorKind::InvalidFixedNumber
    } else {
        ErrorKind::InvalidMobileNumber
    }
}

/// The view of an optional text.
pub open spec fn opt_view(value: Option<&str>) -> Option<Seq<char>> {
    match value {
        Some(s) => Some(s@),
        None => None,
    }
}

/// Whether an optional phone number is absent or well formed.
pub open spec fn opt_phone_ok(value: Option<Seq<char>>) -> bool {
    match value {
        Some(s) => phone_number_ok(s),
        None => true,
    }
}

/// Reads an optional phone number; `prefix` tells which of the two numbers
/// it is.
pub fn to_phone_number(value: Option<&str>, prefix: &str) -> (r: Result<
    Option<PhoneNumber>,
    Error,
>)
    ensures
        r is Ok <==> opt_phone_ok(opt_view(value)),
        r matches Ok(p) ==> phone_view(p) == opt_view(value),
        r matches Err(e) ==> e.code == phone_error_kind(prefix@),
{
    match optional_phone_number(value) {
        Ok(v) => Ok(v),
        Err(_) => {
            proof {
                reveal_strlit("fixed");
                assert("fixed"@ =~= fixed_prefix());
            }
            let code = if String::from_str(prefix) == String::from_str("fixed") {
                ErrorKind::InvalidFixedNumber
            } else {
                ErrorKind::InvalidMobileNumber
            };
            Err(usecase_error(code, String::from_str("the phone number is not valid")))
        },
    }
}

/// Pairs the fixed and the mobile number.
pub fn to_phone_numbers(fixed: Option<PhoneNumber>, mobile: Option<PhoneNumber>) -> (r: Result<
    FixedMobileNumbers,
    Error,
>)
    ensures
        r is Ok <==> (fixed is Some || mobile is Some),
        r matches Ok(n) ==> n@ == (phone_view(fixed), phone_view(mobile)),
        r matches Err(e) ==> e.code == ErrorKind::InvalidPhoneNumbers,
{
    match FixedMobileNumbers::new(fixed, mobile) {
        Ok(v) => Ok(v),
        Err(_) => Err(
            usecase_error(
                ErrorKind::InvalidPhoneNumbers,
                String::from_str("a fixed or a mobile number is needed"),
            ),
        ),
    }
}

/// Reads a postal code.
pub fn to_postal_code(value: &str) -> (r: Result<PostalCode, Error>)
    ensures
        r is Ok <==> postal_code_ok(value@),
        r matches Ok(p) ==> p@ == value@,
        r matches Err(e) ==> e.code == ErrorKind::InvalidPostalCode,
{
    match PostalCode::new(value) {
        Ok(v) => Ok(v),
        Err(_) => Err(
            usecase_error(
                ErrorKind::InvalidPostalCode,
                String::from_str("the postal code is not valid"),
            ),
        ),
    }
}

/// Reads the address details.
pub fn to_address_details(value: &str) -> (r: Result<AddressDetails, Error>)
    ensures
        r is Ok <==> ADDRESS_DETAILS_MIN_LENGTH <= value@.len() <= ADDRESS_DETAILS_MAX_LENGTH,
        r matches Ok(d) ==> d@ == value@,
        r matches Err(e) ==> e.code == ErrorKind::InvalidAddressDetails,
{
    match AddressDetails::new(value) {
        Ok(v) => Ok(v),
        Err(_) => Err(
            usecase_error(
                ErrorKind::InvalidAddressDetails,
                String::from_str("address details have from 2 to 100 characters"),
            ),
        ),
    }
}

/// The view of an optional owned text.
pub open spec fn opt_string_view(value: Option<String>) -> Option<Seq<char>> {
    match value {
        Some(s) => Some(s@),
        None => None,
    }
}

/// Borrows the text of an optional owned text.
pub fn opt_str(value: &Option<String>) -> (r: Option<&str>)
    ensures
        opt_view(r) == opt_string_view(*value),
{
    match value {
        Some(s) => Some(s.as_str()),
        None => None,
    }
}

/// The checks shared by registration and update, in order, after the
/// fields that only registration has.
pub open spec fn contact_check(
    fixed: Option<Seq<char>>,
    mobile: Option<Seq<char>>,
    postal_code: Seq<char>,
    address_details: Seq<char>,
) -> Result<(), ErrorKind> {
    if !opt_phone_ok(fixed) {
        Err(ErrorKind::InvalidFixedNumber)
    } else if !opt_phone_ok(mobile) {
        Err(ErrorKind::InvalidMobileNumber)
    } else if fixed is None && mobile is None {
        Err(ErrorKind::InvalidPhoneNumbers)
    } else if !postal_code_ok(postal_code) {
        Err(ErrorKind::InvalidPostalCode)
    } else if !(ADDRESS_DETAILS_MIN_LENGTH <= address_details.len() <= ADDRESS_DETAILS_MAX_LENGTH) {
        Err(ErrorKind::InvalidAddressDetails)
    } else {
        Ok(())
    }
}

/// The first check an account to register fails: email, name, password,
/// fixed number, mobile number, the pair of numbers, postal code, details.
pub open spec fn new_account_check(new: NewAccount) -> Result<(), ErrorKind> {
    if !email_valid(new.email@) {
        Err(ErrorKind::InvalidEmailAddress)
    } else if !(ACCOUNT_NAME_MIN_LENGTH <= new.name@.len() <= ACCOUNT_NAME_MAX_LENGTH) {
        Err(ErrorKind::InvalidName)
    } else if raw_password_check(new.password@) is Err {
        Err(ErrorKind::InvalidPassword)
    } else {
        contact_check(
            opt_string_view(new.fixed_number),
            opt_string_view(new.mobile_number),
            new.postal_code@,
            new.address_details@,
        )
    }
}

/// The first check an account update fails: name, fixed number, mobile
/// number, the pair of numbers, postal code, details.
pub open spec fn update_account_check(update: UpdateAccount) -> Result<(), ErrorKind> {
    if !(ACCOUNT_NAME_MIN_LENGTH <= update.name@.len() <= ACCOUNT_NAME_MAX_LENGTH) {
        Err(ErrorKind::InvalidName)
    } else {
        contact_check(
            opt_string_view(update.fixed_number),
            opt_string_view(update.mobile_number),
            update.postal_code@,
            update.address_details@,
        )
    }
}

/// Checks an account to register before any store is consulted.
pub fn validate_new_account(new: &NewAccount) -> (r: Result<ValidNewAccount, Error>)
    ensures
        match r {
            Ok(v) => new_account_check(*new) is Ok && v.email@ == new.email@ && v.name@
                == new.name@ && v.password@ == new.password@ && v.is_active == new.is_active
                && v.phone_numbers@ == (opt_string_view(new.fixed_number), opt_string_view(
                new.mobile_number,
            )) && v.postal_code@ == new.postal_code@ && v.prefecture_code == new.prefecture_code
                && v.address_details@ == new.address_details@,
            Err(e) => new_account_check(*new) == Err::<(), ErrorKind>(e.code),
        },
{
    proof {
        reveal_strlit("fixed");
        reveal_strlit("mobile");
        assert("fixed"@ =~= fixed_prefix());
        assert("mobile"@.len() == 6);
    }
    let email = to_email(new.email.as_str())?;
    let name = to_name(new.name.as_str())?;
    let password = to_raw_password(new.password.as_str())?;
    let fixed = to_phone_number(opt_str(&new.fixed_number), "fixed")?;
    let mobile = to_phone_number(opt_str(&new.mobile_number), "mobile")?;
    let phone_numbers = to_phone_numbers(fixed, mobile)?;
    let postal_code = to_postal_code(new.postal_code.as_str())?;
    let address_details = to_address_details(new.address_details.as_str())?;
    Ok(
        ValidNewAccount {
            email,
            name,
            password,
            is_active: new.is_active,
            phone_numbers,
            postal_code,
            prefecture_code: new.prefecture_code,
            address_details,
        },
    )
}

/// Checks an account update before any store is consulted. The account id is
/// read by the caller.
pub fn validate_update_account(update: &UpdateAccount) -> (r: Result<ValidUpdateAccount, Error>)
    ensures
        match r {
            Ok(v) => update_account_check(*update) is Ok && v.name@ == update.name@ && v.is_active
                == update.is_active && v.phone_numbers@ == (opt_string_view(update.fixed_number),
            opt_string_view(update.mobile_number)) && v.postal_code@ == update.postal_code@
                && v.prefecture_code == update.prefecture_code && v.address_details@
                == update.address_details@,
            Err(e) => update_account_check(*update) == Err::<(), ErrorKind>(e.code),
        },
{
    proof {
        reveal_strlit("fixed");
        reveal_strlit("mobile");
        assert("fixed"@ =~= fixed_prefix());
        assert("mobile"@.len() == 6);
    }
    let name = to_name(update.name.as_str())?;
    let fixed = to_phone_number(opt_str(&update.fixed_number), "fixed")?;
    let mobile = to_phone_number(opt_str(&update.mobile_number), "mobile")?;
    let phone_numbers = to_phone_numbers(fixed, mobile)?;
    let postal_code = to_postal_code(update.postal_code.as_str())?;
    let address_details = to_address_details(update.address_details.as_str())?;
    Ok(
        ValidUpdateAccount {
            name,
            is_active: update.is_active,
            phone_numbers,
            postal_code,
            prefecture_code: update.prefecture_code,
            address_details,
        },
    )
}

/// Checks the two passwords of a password change: the old one first.
pub fn validate_passwords(old_password: &str, new_password: &str) -> (r: Result<
    (RawPassword, RawPassword),
    Error,
>)
    ensures
        match r {
            Ok((o, n)) => o@ == old_password@ && n@ == new_password@,
            Err(e) => if raw_password_check(old_password@) is Err {
                e.code == ErrorKind::InvalidOldPassword
            } else {
                raw_password_check(new_password@) is Err && e.code == ErrorKind::InvalidNewPassword
            },
        },
        r is Ok <==> raw_password_check(old_password@) is Ok && raw_password_check(
            new_password@,
        ) is Ok,
{
    let old = match RawPassword::new(old_password) {
        Ok(p) => p,
        Err(_) => {
            return Err(
                usecase_error(
                    ErrorKind::InvalidOldPassword,
                    String::from_str("the old password is not valid"),
                ),
            );
        },
    };
    let new = match RawPassword::new(new_password) {
        Ok(p) => p,
        Err(_) => {
            return Err(
                usecase_error(
                    ErrorKind::InvalidNewPassword,
                    String::from_str("the new password is not valid"),
                ),
            );
        },
    };
    Ok((old, new))
}

/// The decision on the old password of a password change, given the outcome
/// of checking it against the stored record.
pub fn check_old_password(verified: Result<bool, DecodeError>) -> (r: Result<(), Error>)
    ensures
        match verified {
            Ok(true) => r is Ok,
            Ok(false) => r matches Err(e) && e.code == ErrorKind::WrongPassword,
            Err(_) => r matches Err(e) && e.code == ErrorKind::InternalServerError,
        },
{
    match verified {
        Err(_) => Err(internal_error(String::from_str("the stored password could not be read"))),
        Ok(false) => Err(
            usecase_error(ErrorKind::WrongPassword, String::from_str("the old password is wrong")),
        ),
        Ok(true) => Ok(()),
    }
}

/// The outcome of looking something up in a store: the value, a failure of
/// kind `missing` when there is none, or an internal failure carrying the
/// store's message.
pub fn found_or<T>(looked_up: Result<Option<T>, String>, missing: ErrorKind) -> (r: Result<T, Error>)
    ensures
        match looked_up {
            Ok(Some(v)) => r matches Ok(w) && w == v,
            Ok(None) => r matches Err(e) && e.code == missing,
            Err(m) => r matches Err(e) && e.code == ErrorKind::InternalServerError && e.message
                == m,
        },
{
    match looked_up {
        Err(m) => Err(internal_error(m)),
        Ok(None) => Err(usecase_error(missing, String::from_str("nothing was found"))),
        Ok(Some(v)) => Ok(v),
    }
}

} // verus!
