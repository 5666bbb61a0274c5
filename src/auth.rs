use crate::codec::DecodeError;
use crate::models::{email_valid, raw_password_check, EmailAddress, RawPassword};
use vstd::prelude::*;
use vstd::string::*;

verus! {

/// The kinds of failure of signing in.
#[derive(Clone, Copy, Debug, PartialEq, Eq, Structural)]
pub enum ErrorKind {
    /// A collaborator failed or a stored record could not be read.
    InternalServerError,
    /// No active account has this email address and password.
    InvalidCredential,
    /// The email address is not one.
    InvalidEmailAddress,
    /// The password breaks the password rules.
    InvalidPassword,
}

/// A failure of signing in, with a message for the caller.
#[derive(Clone, Debug)]
pub struct Error {
    pub code: ErrorKind,
    pub message: String,
}

/// What a caller signs in with.
#[derive(Clone, Debug)]
pub struct Credential {
    pub email: String,
    pub password: String,
}

/// Reads the email address of a credential.
pub fn to_email(value: &str) -> (r: Result<EmailAddress, Error>)
    ensures
        r is Ok <==> email_valid(value@),
        r matches Ok(e) ==> e@ == value@,
        r matches Err(e) ==> e.code == ErrorKind::InvalidEmailAddress,
{
    match EmailAddress::new(value) {
        Ok(v) => Ok(v),
        Err(_) => Err(
            Error {
                code: ErrorKind::InvalidEmailAddress,
                message: String::from_str("the email address is not valid"),
            },
        ),
    }
}

/// Reads the password of a credential.
pub fn to_raw_password(value: &str) -> (r: Result<RawPassword, Error>)
    ensures
        r is Ok <==> raw_password_check(value@) is Ok,
        r matches Ok(p) ==> p@ == value@,
        r matches Err(e) ==> e.code == ErrorKind::InvalidPassword,
{
    match RawPassword::new(value) {
        Ok(v) => Ok(v),
        Err(_) => Err(
            Error {
                code: ErrorKind::InvalidPassword,
                message: String::from_str("the password breaks the password rules"),
            },
        ),
    }
}

/// An internal failure, reported with the given message.
pub fn internal_server_error(message: String) -> (r: Error)
    ensures
        r.code == ErrorKind::InternalServerError,
        r.message == message,
{
    Error { code: ErrorKind::InternalServerError, message }
}

/// The two parts of a credential, read before any store is consulted: the
/// email address first, then the password.
pub fn read_credential(credential: &Credential) -> (r: Result<(EmailAddress, RawPassword), Error>)
    ensures
        match r {
            Ok((e, p)) => e@ == credential.email@ && p@ == credential.password@,
            Err(e) => if !email_valid(credential.email@) {
                e.code == ErrorKind::InvalidEmailAddress
            } else {
                raw_password_check(credential.password@) is Err && e.code
                    == ErrorKind::InvalidPassword
            },
        },
        r is Ok <==> email_valid(credential.email@) && raw_password_check(credential.password@) is Ok,
{
    let email = to_email(credential.email.as_str())?;
    let password = to_raw_password(credential.password.as_str())?;
    Ok((email, password))
}

/// The one message of every refused sign-in, whatever the reason.
pub open spec fn invalid_credential_message() -> Seq<char> {
    "the email address or the password is wrong"@
}

/// The outcome of signing in: the account, `InvalidCredential` with one
/// fixed message when there is none (a missing account, an inactive one and
/// a wrong password are not told apart), and an internal error when the stored record could not be read.
pub fn authenticate_account<A>(result: Result<Option<A>, DecodeError>) -> (r: Result<A, Error>)
    ensures
        match result {
            Ok(Some(a)) => r matches Ok(b) && b == a,
            Ok(None) => r matches Err(e) && e.code == ErrorKind::InvalidCredential && e.message@
                == invalid_credential_message(),
            Err(_) => r matches Err(e) && e.code == ErrorKind::InternalServerError,
        },
{
    match result {
        Err(_) => Err(internal_server_error(String::from_str("the stored password could not be read"))),
        Ok(None) => Err(
            Error {
                code: ErrorKind::InvalidCredential,
                message: String::from_str("the email address or the password is wrong"),
            },
        ),
        Ok(Some(a)) => Ok(a),
    }
}

} // verus!
