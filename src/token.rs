use crate::models::JwtToken;
use crate::text::chars_of;
use hmac::Mac;
use jwt::{SignWithKey, VerifyWithKey};
use vstd::prelude::*;

verus! {

/// Why a token could not be issued or accepted.
#[derive(Clone, Copy, Debug, PartialEq, Eq, Structural)]
pub enum TokenError {
    /// The token could not be signed.
    SigningError,
    /// The signature does not match the secret key.
    InvalidSignature,
    /// The token or its claims are not well formed.
    MalformedClaims,
    /// The token expired at or before the current time.
    Expired,
    /// An expiry time is negative or does not fit in 64 bits.
    ExpiryOutOfRange,
}

/// How the signature check of a token failed.
#[derive(Clone, Copy, Debug, PartialEq, Eq, Structural)]
pub enum JwtFailure {
    /// The secret could not be made into a key.
    Key,
    /// The signature or its algorithm does not match the key.
    Signature,
    /// The token is not three base64 JSON parts.
    Malformed,
}

/// The claims of a token: the account it was issued to and when it expires,
/// in seconds since the Unix epoch.
#[derive(Clone, Debug)]
pub struct Claims {
    pub sub: String,
    pub exp: i64,
}

/// Token lifetimes and the signing secret.
#[derive(Clone, Debug)]
pub struct TokenConfig {
    pub secret_key: String,
    pub access_token_seconds: i64,
    pub refresh_token_seconds: i64,
}

/// An access and a refresh token issued together to one account.
#[derive(Clone, Debug)]
pub struct IssuedTokenPair {
    pub subject: String,
    pub access: JwtToken,
    pub access_expires_at: i64,
    pub refresh: JwtToken,
    pub refresh_expires_at: i64,
}

/// What HMAC-SHA-256 signing of the claims `sub` and `exp` under `secret`
/// gives: the token, or `None` when signing failed.
pub uninterp spec fn signed_token(secret: Seq<char>, sub: Seq<char>, exp: u64) -> Option<Seq<char>>;

/// The view of an optional owned text.
pub open spec fn text_view(t: Option<String>) -> Option<Seq<char>> {
    match t {
        Some(x) => Some(x@),
        None => None,
    }
}

/// Relies on `hmac::Hmac::<Sha256>::new_from_slice`, which makes the key from
/// the secret's bytes, and on jwt's `SignWithKey` for claims, which signs a
/// token whose header names the key's algorithm (HS256) and whose claims are
/// `{"sub":..,"exp":..}`; the token is its three parts joined by `.`.
#[verifier::external_body]
fn sign_claims(secret: &str, sub: &str, exp: u64) -> (r: Option<String>)
    ensures
        text_view(r) == signed_token(secret@, sub@, exp),
        r matches Some(t) ==> t@.len() > 0,
{
    let key: hmac::Hmac<sha2::Sha256> = hmac::Hmac::new_from_slice(secret.as_bytes()).ok()?;
    let claims = jwt::RegisteredClaims {
        subject: Some(sub.to_owned()),
        expiration: Some(exp),
        ..Default::default()
    };
    claims.sign_with_key(&key).ok()
}

/// What checking the HS256 signature of `token` under `secret` gives: the
/// subject and expiry claims as read, or how the check failed.
pub uninterp spec fn verified_claims(secret: Seq<char>, token: Seq<char>) -> Result<
    (Option<Seq<char>>, Option<u64>),
    JwtFailure,
>;

/// Whether a signature check `outcome` of `token` under `secret` gives back
/// the claims of every signing under `secret` that produced `token`.
pub open spec fn gives_signed_claims(
    outcome: Result<(Option<Seq<char>>, Option<u64>), JwtFailure>,
    secret: Seq<char>,
    token: Seq<char>,
) -> bool {
    forall|sub: Seq<char>, exp: u64|
        #[trigger] signed_token(secret, sub, exp) == Some(token) ==> outcome == Ok::<
            (Option<Seq<char>>, Option<u64>),
            JwtFailure,
        >((Some(sub), Some(exp)))
}

/// Relies on `hmac::Hmac::<Sha256>::new_from_slice` for the key and on jwt's
/// `VerifyWithKey` for `&str`, which parses the token and checks its HS256
/// signature; the subject and expiry claims are handed back as read, and
/// each failure is told apart by its error variant. A token that
/// `sign_claims` made under the same secret parses (its header names HS256,
/// its claims are the JSON of `sub` and `exp`), passes the signature check
/// (the HMAC is recomputed over the same parts) and gives back its claims.
#[verifier::external_body]
fn verify_signed(secret: &str, token: &str) -> (r: Result<(Option<String>, Option<u64>), JwtFailure>)
    ensures
        outcome_view(r) == verified_claims(secret@, token@),
        gives_signed_claims(outcome_view(r), secret@, token@),
{
    let key: hmac::Hmac<sha2::Sha256> = match hmac::Hmac::new_from_slice(secret.as_bytes()) {
        Ok(k) => k,
        Err(_) => return Err(JwtFailure::Key),
    };
    let read: Result<jwt::RegisteredClaims, jwt::Error> = token.verify_with_key(&key);
    match read {
        Ok(c) => Ok((c.subject, c.expiration)),
        Err(jwt::Error::InvalidSignature) => Err(JwtFailure::Signature),
        Err(jwt::Error::AlgorithmMismatch(..)) => Err(JwtFailure::Signature),
        Err(jwt::Error::RustCryptoMac(_)) => Err(JwtFailure::Signature),
        Err(_) => Err(JwtFailure::Malformed),
    }
}

/// Relies on `chrono::Utc::now` and `DateTime::timestamp`: the current time
/// in seconds since the Unix epoch.
#[verifier::external_body]
fn now_seconds() -> (r: i64) {
    chrono::Utc::now().timestamp()
}

/// A token is valid strictly before its expiry: one that expires exactly now
/// is expired.
pub fn check_expiry(exp: i64, now: i64) -> (r: Result<(), TokenError>)
    ensures
        r is Ok <==> exp > now,
        r matches Err(e) ==> e == TokenError::Expired,
{
    if exp <= now {
        Err(TokenError::Expired)
    } else {
        Ok(())
    }
}

/// What a signature check outcome gives at time `now`: the claims, when both
/// are present, the expiry fits in 64 signed bits and lies after `now`.
pub open spec fn claims_outcome(
    outcome: Result<(Option<Seq<char>>, Option<u64>), JwtFailure>,
    now: i64,
) -> Result<(Seq<char>, i64), TokenError> {
    match outcome {
        Err(JwtFailure::Key) => Err(TokenError::SigningError),
        Err(JwtFailure::Signature) => Err(TokenError::InvalidSignature),
        Err(JwtFailure::Malformed) => Err(TokenError::MalformedClaims),
        Ok((Some(sub), Some(exp))) => if exp > i64::MAX as u64 {
            Err(TokenError::MalformedClaims)
        } else if exp as i64 <= now {
            Err(TokenError::Expired)
        } else {
            Ok((sub, exp as i64))
        },
        Ok(_) => Err(TokenError::MalformedClaims),
    }
}

/// The view of a signature check outcome.
pub open spec fn outcome_view(outcome: Result<(Option<String>, Option<u64>), JwtFailure>) -> Result<
    (Option<Seq<char>>, Option<u64>),
    JwtFailure,
> {
    match outcome {
        Ok((s, e)) => Ok(
            (
                match s {
                    Some(t) => Some(t@),
                    None => None,
                },
                e,
            ),
        ),
        Err(f) => Err(f),
    }
}

/// Turns the outcome of a signature check into claims at time `now`.
pub fn check_claims(outcome: Result<(Option<String>, Option<u64>), JwtFailure>, now: i64) -> (r:
    Result<Claims, TokenError>)
    ensures
        match r {
            Ok(c) => claims_outcome(outcome_view(outcome), now) == Ok::<
                (Seq<char>, i64),
                TokenError,
            >((c.sub@, c.exp)),
            Err(e) => claims_outcome(outcome_view(outcome), now) == Err::<
                (Seq<char>, i64),
                TokenError,
            >(e),
        },
{
    match outcome {
        Err(JwtFailure::Key) => Err(TokenError::SigningError),
        Err(JwtFailure::Signature) => Err(TokenError::InvalidSignature),
        Err(JwtFailure::Malformed) => Err(TokenError::MalformedClaims),
        Ok((Some(sub), Some(exp))) => {
            if exp > i64::MAX as u64 {
                return Err(TokenError::MalformedClaims);
            }
            let exp = exp as i64;
            match check_expiry(exp, now) {
                Err(e) => Err(e),
                Ok(()) => Ok(Claims { sub, exp }),
            }
        },
        Ok(_) => Err(TokenError::MalformedClaims),
    }
}

/// What signing the claims `sub` and `exp` under `secret` gives: a negative
/// expiry is refused, otherwise the signed token or a signing failure.
pub open spec fn sign_outcome(secret: Seq<char>, sub: Seq<char>, exp: i64) -> Result<
    Seq<char>,
    TokenError,
> {
    if exp < 0 {
        Err(TokenError::ExpiryOutOfRange)
    } else {
        match signed_token(secret, sub, exp as u64) {
            Some(t) => Ok(t),
            None => Err(TokenError::SigningError),
        }
    }
}

/// Signs the claims with the secret key.
pub fn gen_jwt_token(secret_key: &str, claims: &Claims) -> (r: Result<String, TokenError>)
    ensures
        match r {
            Ok(t) => sign_outcome(secret_key@, claims.sub@, claims.exp) == Ok::<
                Seq<char>,
                TokenError,
            >(t@),
            Err(e) => sign_outcome(secret_key@, claims.sub@, claims.exp) == Err::<
                Seq<char>,
                TokenError,
            >(e),
        },
        r matches Ok(t) ==> t@.len() > 0,
{
    if claims.exp < 0 {
        return Err(TokenError::ExpiryOutOfRange);
    }
    match sign_claims(secret_key, claims.sub.as_str(), claims.exp as u64) {
        Some(t) => Ok(t),
        None => Err(TokenError::SigningError),
    }
}

/// Whether `r` is what checking `token` under `secret` at time `now` gives.
pub open spec fn decoded_as(
    r: Result<Claims, TokenError>,
    secret: Seq<char>,
    token: Seq<char>,
    now: i64,
) -> bool {
    match r {
        Ok(c) => claims_outcome(verified_claims(secret, token), now) == Ok::<
            (Seq<char>, i64),
            TokenError,
        >((c.sub@, c.exp)),
        Err(e) => claims_outcome(verified_claims(secret, token), now) == Err::<
            (Seq<char>, i64),
            TokenError,
        >(e),
    }
}

/// Whether `r` is what checking `token` under `secret` at time `now` gives,
/// and, for a token signed under `secret` for `sub` and `exp`, its claims
/// while `now` is before `exp` and `Expired` from `exp` on.
pub open spec fn checked_at(
    r: Result<Claims, TokenError>,
    secret: Seq<char>,
    token: Seq<char>,
    now: i64,
) -> bool {
    &&& decoded_as(r, secret, token, now)
    &&& forall|sub: Seq<char>, exp: u64|
        #[trigger] signed_token(secret, sub, exp) == Some(token) && exp <= i64::MAX
            ==> signed_checked_as(r, sub, exp, now)
}

/// Whether `r` is what checking a token signed for `sub` and `exp` gives at
/// time `now`: its claims while `now` is before `exp`, `Expired` from `exp`
/// on.
pub open spec fn signed_checked_as(r: Result<Claims, TokenError>, sub: Seq<char>, exp: u64, now: i64) -> bool {
    if exp > now {
        r matches Ok(c) && c.sub@ == sub && c.exp == exp as i64
    } else {
        r matches Err(e) && e == TokenError::Expired
    }
}

/// Checks a token's signature with the secret key, then its claims and its
/// expiry against `now`.
pub fn decode_jwt_token_at(secret_key: &str, token: &str, now: i64) -> (r: Result<
    Claims,
    TokenError,
>)
    ensures
        checked_at(r, secret_key@, token@, now),
        r matches Ok(c) ==> c.exp > now,
{
    check_claims(verify_signed(secret_key, token), now)
}

/// Checks a token's signature with the secret key, then its claims and its
/// expiry against the current time.
pub fn decode_jwt_token(secret_key: &str, token: &str) -> (r: Result<Claims, TokenError>)
    ensures
        exists|now: i64| #[trigger] checked_at(r, secret_key@, token@, now),
{
    let now = now_seconds();
    let r = decode_jwt_token_at(secret_key, token, now);
    assert(checked_at(r, secret_key@, token@, now));
    r
}

/// Whether `r` is what issuing a pair to `subject` at time `now` gives: the
/// expiries are `now` plus the configured lifetimes and must lie in
/// `0..=i64::MAX`; each token is the signed claims of the subject and its
/// expiry, or the issue fails with `SigningError` when one cannot be signed.
pub open spec fn issue_outcome(
    config: TokenConfig,
    subject: Seq<char>,
    now: i64,
    r: Result<IssuedTokenPair, TokenError>,
) -> bool {
    let a = now + config.access_token_seconds;
    let f = now + config.refresh_token_seconds;
    if !(0 <= a <= i64::MAX && 0 <= f <= i64::MAX) {
        r matches Err(e) && e == TokenError::ExpiryOutOfRange
    } else {
        match (
            signed_token(config.secret_key@, subject, a as u64),
            signed_token(config.secret_key@, subject, f as u64),
        ) {
            (Some(ta), Some(tf)) => r matches Ok(p) && {
                &&& p.subject@ == subject
                &&& p.access_expires_at == a
                &&& p.refresh_expires_at == f
                &&& p.access@ == ta
                &&& p.refresh@ == tf
            },
            _ => r matches Err(e) && e == TokenError::SigningError,
        }
    }
}

/// Issues an access and a refresh token to `subject` at time `now`, expiring
/// after the configured lifetimes.
pub fn issue_pair(config: &TokenConfig, subject: &str, now: i64) -> (r: Result<
    IssuedTokenPair,
    TokenError,
>)
    ensures
        issue_outcome(*config, subject@, now, r),
{
    let access_expires_at = match now.checked_add(config.access_token_seconds) {
        Some(t) => t,
        None => return Err(TokenError::ExpiryOutOfRange),
    };
    let refresh_expires_at = match now.checked_add(config.refresh_token_seconds) {
        Some(t) => t,
        None => return Err(TokenError::ExpiryOutOfRange),
    };
    if access_expires_at < 0 || refresh_expires_at < 0 {
        return Err(TokenError::ExpiryOutOfRange);
    }
    let mut claims = Claims { sub: subject.to_owned(), exp: access_expires_at };
    let access = gen_jwt_token(config.secret_key.as_str(), &claims)?;
    claims.exp = refresh_expires_at;
    let refresh = gen_jwt_token(config.secret_key.as_str(), &claims)?;
    let access = match JwtToken::new(access.as_str()) {
        Ok(t) => t,
        Err(_) => return Err(TokenError::SigningError),
    };
    let refresh = match JwtToken::new(refresh.as_str()) {
        Ok(t) => t,
        Err(_) => return Err(TokenError::SigningError),
    };
    Ok(
        IssuedTokenPair {
            subject: subject.to_owned(),
            access,
            access_expires_at,
            refresh,
            refresh_expires_at,
        },
    )
}

/// Issues an access and a refresh token to `subject`, expiring after the
/// configured lifetimes counted from the current time.
pub fn gen_jwt_tokens(config: &TokenConfig, subject: &str) -> (r: Result<
    IssuedTokenPair,
    TokenError,
>)
    ensures
        exists|now: i64| #[trigger] issue_outcome(*config, subject@, now, r),
{
    let now = now_seconds();
    let r = issue_pair(config, subject, now);
    assert(issue_outcome(*config, subject@, now, r));
    r
}

/// Whether a request is signed in: the claims of its bearer token, or none.
#[derive(Clone, Debug)]
pub enum JwtAuth {
    Authenticate(Claims),
    Anonymous,
}

/// Whether `c` is white space as `char::is_whitespace` defines it (the
/// Unicode `White_Space` property).
pub open spec fn is_white_space(c: char) -> bool {
    ('\u{9}' <= c && c <= '\u{d}') || c == ' ' || c == '\u{85}' || c == '\u{a0}' || c
        == '\u{1680}' || ('\u{2000}' <= c && c <= '\u{200a}') || c == '\u{2028}' || c
        == '\u{2029}' || c == '\u{202f}' || c == '\u{205f}' || c == '\u{3000}'
}

/// Whether `c` is white space.
pub fn white_space(c: char) -> (r: bool)
    ensures
        r == is_white_space(c),
{
    ('\u{9}' <= c && c <= '\u{d}') || c == ' ' || c == '\u{85}' || c == '\u{a0}' || c
        == '\u{1680}' || ('\u{2000}' <= c && c <= '\u{200a}') || c == '\u{2028}' || c
        == '\u{2029}' || c == '\u{202f}' || c == '\u{205f}' || c == '\u{3000}'
}

/// `s[lo..hi]` is `s` without its leading and trailing white space.
pub open spec fn trimmed_at(s: Seq<char>, lo: int, hi: int) -> bool {
    &&& 0 <= lo <= hi <= s.len()
    &&& forall|i: int| 0 <= i < lo ==> is_white_space(#[trigger] s[i])
    &&& forall|i: int| hi <= i < s.len() ==> is_white_space(#[trigger] s[i])
    &&& lo < hi ==> !is_white_space(s[lo]) && !is_white_space(s[hi - 1])
}

/// The text `Bearer`.
pub open spec fn bearer() -> Seq<char> {
    seq!['B', 'e', 'a', 'r', 'e', 'r']
}

/// Whether `Bearer` starts at `i` in `s`.
pub open spec fn bearer_at(s: Seq<char>, i: int) -> bool {
    0 <= i && i + 6 <= s.len() && s.subrange(i, i + 6) == bearer()
}

/// The token of a header lies at `[lo, hi)` inside the segment `[b + 6, e)`:
/// `b` is the first `Bearer`, `e` the next one or the end, and the token is
/// the segment without surrounding white space.
pub open spec fn bearer_token_at(h: Seq<char>, b: int, e: int, lo: int, hi: int) -> bool {
    &&& bearer_at(h, b)
    &&& forall|j: int| 0 <= j < b ==> !bearer_at(h, j)
    &&& b + 6 <= e <= h.len()
    &&& (e == h.len() || bearer_at(h, e))
    &&& forall|j: int| b + 6 <= j < e ==> !bearer_at(h, j)
    &&& trimmed_at(h.subrange(b + 6, e), lo, hi)
}

/// Whether `Bearer` starts at `i` in `v`.
fn is_bearer_at(v: &Vec<char>, i: usize) -> (r: bool)
    ensures
        r == bearer_at(v@, i as int),
{
    if i > v.len() || v.len() - i < 6 {
        return false;
    }
    let r = v[i] == 'B' && v[i + 1] == 'e' && v[i + 2] == 'a' && v[i + 3] == 'r' && v[i + 4] == 'e'
        && v[i + 5] == 'r';
    proof {
        if r {
            assert(v@.subrange(i as int, i + 6) =~= bearer());
        } else {
            if v@.subrange(i as int, i + 6) == bearer() {
                assert(v@.subrange(i as int, i + 6)[0] == 'B');
                assert(v@.subrange(i as int, i + 6)[1] == 'e');
                assert(v@.subrange(i as int, i + 6)[2] == 'a');
                assert(v@.subrange(i as int, i + 6)[3] == 'r');
                assert(v@.subrange(i as int, i + 6)[4] == 'e');
                assert(v@.subrange(i as int, i + 6)[5] == 'r');
            }
        }
    }
    r
}

/// The first place at or after `from` where `Bearer` starts, if any.
fn find_bearer(v: &Vec<char>, from: usize) -> (r: Option<usize>)
    requires
        from <= v@.len(),
    ensures
        match r {
            Some(i) => from <= i && bearer_at(v@, i as int) && forall|j: int|
                from <= j < i ==> !bearer_at(v@, j),
            None => forall|j: int| from <= j <= v@.len() ==> !bearer_at(v@, j),
        },
{
    let mut i = from;
    while i < v.len()
        invariant
            from <= i <= v@.len(),
            forall|j: int| from <= j < i ==> !bearer_at(v@, j),
        decreases v@.len() - i,
    {
        if is_bearer_at(v, i) {
            return Some(i);
        }
        i = i + 1;
    }
    None
}

/// The token of an `Authorization` header: the text between its first
/// `Bearer` and the next one (or the end), without surrounding white space;
/// `None` when the header has no `Bearer`.
pub fn bearer_token(header: &str) -> (r: Option<String>)
    ensures
        r is None <==> forall|j: int| 0 <= j <= header@.len() ==> !bearer_at(header@, j),
        r matches Some(t) ==> exists|b: int, e: int, lo: int, hi: int|
            #[trigger] bearer_token_at(header@, b, e, lo, hi) && t@ == header@.subrange(
                b + 6,
                e,
            ).subrange(lo, hi),
{
    let v = chars_of(header);
    let b = match find_bearer(&v, 0) {
        None => return None,
        Some(b) => b,
    };
    assert(bearer_at(v@, b as int));
    assert(b + 6 <= v.len());
    let start = b + 6;
    let end = match find_bearer(&v, start) {
        None => v.len(),
        Some(e) => e,
    };
    let ghost seg = v@.subrange(start as int, end as int);
    let mut lo = start;
    while lo < end && white_space(v[lo])
        invariant
            start <= lo <= end <= v@.len(),
            forall|i: int| start <= i < lo ==> is_white_space(#[trigger] v@[i]),
        decreases end - lo,
    {
        lo = lo + 1;
    }
    let mut hi = end;
    while hi > lo && white_space(v[hi - 1])
        invariant
            start <= lo <= hi <= end <= v@.len(),
            forall|i: int| hi <= i < end ==> is_white_space(#[trigger] v@[i]),
        decreases hi - lo,
    {
        hi = hi - 1;
    }
    proof {
        assert(trimmed_at(seg, lo - start, hi - start)) by {
            assert forall|i: int| 0 <= i < lo - start implies is_white_space(#[trigger] seg[i]) by {
                assert(seg[i] == v@[start + i]);
            }
            assert forall|i: int| hi - start <= i < seg.len() implies is_white_space(
                #[trigger] seg[i],
            ) by {
                assert(seg[i] == v@[start + i]);
            }
            if lo < hi {
                assert(seg[lo - start] == v@[lo as int]);
                assert(seg[hi - start - 1] == v@[hi - 1]);
            }
        }
        assert(seg.subrange(lo - start, hi - start) =~= header@.subrange(lo as int, hi as int));
        assert(bearer_token_at(header@, b as int, end as int, lo - start, hi - start));
    }
    Some(header.substring_char(lo, hi).to_owned())
}

impl JwtAuth {
    /// Reads the `Authorization` header of a request at time `now`: no
    /// header is anonymous; otherwise its bearer token must be valid.
    pub fn from_header(secret_key: &str, header: Option<&str>, now: i64) -> (r: Result<
        JwtAuth,
        TokenError,
    >)
        ensures
            header is None ==> r matches Ok(JwtAuth::Anonymous),
            header matches Some(h) ==> (bearer_token_absent(h@) ==> r == Err::<
                JwtAuth,
                TokenError,
            >(TokenError::MalformedClaims)),
            header matches Some(h) ==> (!bearer_token_absent(h@) ==> exists|
                b: int,
                e: int,
                lo: int,
                hi: int,
            |
                #[trigger] bearer_token_at(h@, b, e, lo, hi) && authenticated_as(
                    r,
                    secret_key@,
                    h@.subrange(b + 6, e).subrange(lo, hi),
                    now,
                )),
            r matches Ok(JwtAuth::Authenticate(c)) ==> c.exp > now,
    {
        match header {
            None => Ok(JwtAuth::Anonymous),
            Some(h) => match bearer_token(h) {
                None => Err(TokenError::MalformedClaims),
                Some(t) => {
                    let d = decode_jwt_token_at(secret_key, t.as_str(), now);
                    let r = match d {
                        Ok(c) => Ok(JwtAuth::Authenticate(c)),
                        Err(e) => Err(e),
                    };
                    proof {
                        let (b, e, lo, hi) = choose|b: int, e: int, lo: int, hi: int|
                            #[trigger] bearer_token_at(h@, b, e, lo, hi) && t@ == h@.subrange(
                                b + 6,
                                e,
                            ).subrange(lo, hi);
                        assert(bearer_token_at(h@, b, e, lo, hi));
                        assert(authenticated_as(r, secret_key@, t@, now));
                    }
                    r
                },
            },
        }
    }
}

/// Whether `r` is what reading a request whose bearer token is `token` gives
/// at time `now`: the claims that checking the token gives, or its failure.
pub open spec fn authenticated_as(
    r: Result<JwtAuth, TokenError>,
    secret: Seq<char>,
    token: Seq<char>,
    now: i64,
) -> bool {
    match r {
        Ok(JwtAuth::Authenticate(c)) => decoded_as(Ok(c), secret, token, now),
        Ok(JwtAuth::Anonymous) => false,
        Err(e) => decoded_as(Err(e), secret, token, now),
    }
}

/// Whether a header holds no `Bearer` at all.
pub open spec fn bearer_token_absent(h: Seq<char>) -> bool {
    forall|j: int| 0 <= j <= h.len() ==> !bearer_at(h, j)
}

} // verus!
