use crate::codec::DecodeError;
use crate::hasher::{verify_password, verify_spec};
use crate::models::{HashedPassword, RawPassword};
use vstd::prelude::*;

verus! {

/// What the account store holds of an account for signing in: whether it is
/// active and its stored password text.
#[derive(Clone, Debug)]
pub struct StoredCredential {
    pub is_active: bool,
    pub password: HashedPassword,
}

/// The decision on a sign-in: `Ok(true)` only for an active account whose
/// stored record accepts the password; a stored record that cannot be read
/// is an error; anything else is `Ok(false)`.
pub open spec fn authenticate_spec(
    found: Option<(bool, Seq<char>)>,
    raw: Seq<char>,
    pepper: Seq<char>,
) -> Result<bool, DecodeError> {
    match found {
        None => Ok(false),
        Some((active, stored)) => if !active {
            Ok(false)
        } else {
            verify_spec(raw, stored, pepper)
        },
    }
}

/// The view of an account looked up by email.
pub open spec fn found_view<A>(found: Option<(A, StoredCredential)>) -> Option<(bool, Seq<char>)> {
    match found {
        None => None,
        Some((_, c)) => Some((c.is_active, c.password@)),
    }
}

/// Signs in the account found by email, if any: an account that is missing,
/// inactive or whose password does not match gives `Ok(None)`, so callers
/// cannot tell these apart; an unreadable stored record is an error.
pub fn authenticate<A>(
    found: Option<(A, StoredCredential)>,
    password: &RawPassword,
    pepper: &str,
) -> (r: Result<Option<A>, DecodeError>)
    ensures
        match authenticate_spec(found_view(found), password@, pepper@) {
            Ok(true) => r matches Ok(Some(a)) && found matches Some(f) && a == f.0,
            Ok(false) => r matches Ok(None),
            Err(e) => r == Err::<Option<A>, DecodeError>(e),
        },
{
    let (account, credential) = match found {
        None => return Ok(None),
        Some(f) => f,
    };
    if !credential.is_active {
        return Ok(None);
    }
    let raw = password.value();
    let stored = credential.password.value();
    match verify_password(raw.as_str(), stored.as_str(), pepper) {
        Err(e) => Err(e),
        Ok(false) => Ok(None),
        Ok(true) => Ok(Some(account)),
    }
}

/// A missing account, an inactive account and a wrong password all give the
/// same answer, `Ok(false)`, whatever the password.
pub proof fn lemma_authenticate_collapse(
    raw: Seq<char>,
    pepper: Seq<char>,
    inactive_stored: Seq<char>,
    active_stored: Seq<char>,
)
    requires
        verify_spec(raw, active_stored, pepper) == Ok::<bool, DecodeError>(false),
    ensures
        authenticate_spec(None, raw, pepper) == Ok::<bool, DecodeError>(false),
        authenticate_spec(Some((false, inactive_stored)), raw, pepper) == Ok::<bool, DecodeError>(
            false,
        ),
        authenticate_spec(Some((true, active_stored)), raw, pepper) == Ok::<bool, DecodeError>(
            false,
        ),
{
}

} // verus!
