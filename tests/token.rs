use credentials::token::{
    bearer_token, JwtAuth,
    check_claims, check_expiry, decode_jwt_token, decode_jwt_token_at, gen_jwt_token,
    gen_jwt_tokens, issue_pair, Claims, JwtFailure, TokenConfig, TokenError,
};

const SECRET: &str = "this-is-a-test-secret-key";

fn now() -> i64 {
    std::time::SystemTime::now()
        .duration_since(std::time::UNIX_EPOCH)
        .unwrap()
        .as_secs() as i64
}

#[test]
fn test_gen_jwt() {
    let expired = now() + 24 * 60 * 60;
    let claims = Claims {
        sub: "01D39ZY06FGSCTVN4T2V9PKHFZ".to_owned(),
        exp: expired,
    };
    let token = gen_jwt_token(SECRET, &claims);
    if let Err(ref err) = token {
        assert!(false, "the token could not be signed: {:?}", err);
    }
    let decoded = decode_jwt_token(SECRET, &token.unwrap());
    if let Err(ref err) = decoded {
        assert!(false, "the token could not be read: {:?}", err);
    }
    let decoded = decoded.unwrap();
    assert_eq!(claims.sub, decoded.sub);
    assert_eq!(claims.exp, decoded.exp);
}

#[test]
fn token_has_the_expected_header_and_claims() {
    let claims = Claims { sub: "abc".to_owned(), exp: 1302319100 };
    let token = gen_jwt_token(SECRET, &claims).unwrap();
    let parts: Vec<&str> = token.split('.').collect();
    assert_eq!(parts.len(), 3);
    // {"alg":"HS256"} and {"sub":"abc","exp":1302319100}, base64url without padding
    assert_eq!(parts[0], "eyJhbGciOiJIUzI1NiJ9");
    assert_eq!(parts[1], "eyJzdWIiOiJhYmMiLCJleHAiOjEzMDIzMTkxMDB9");
    assert_eq!(gen_jwt_token(SECRET, &claims).unwrap(), token);
}

#[test]
fn expiry_boundary() {
    assert_eq!(check_expiry(100, 100), Err(TokenError::Expired));
    assert_eq!(check_expiry(101, 100), Ok(()));
    assert_eq!(check_expiry(99, 100), Err(TokenError::Expired));
}

#[test]
fn expiry_boundary_on_a_signed_token() {
    let claims = Claims { sub: "acc".to_owned(), exp: 5000 };
    let token = gen_jwt_token(SECRET, &claims).unwrap();
    assert_eq!(decode_jwt_token_at(SECRET, &token, 5000).unwrap_err(), TokenError::Expired);
    let ok = decode_jwt_token_at(SECRET, &token, 4999).unwrap();
    assert_eq!(ok.sub, "acc");
    assert_eq!(ok.exp, 5000);
}

#[test]
fn wrong_key_is_an_invalid_signature() {
    let claims = Claims { sub: "acc".to_owned(), exp: now() + 60 };
    let token = gen_jwt_token(SECRET, &claims).unwrap();
    assert_eq!(
        decode_jwt_token("another-secret", &token).unwrap_err(),
        TokenError::InvalidSignature
    );
}

#[test]
fn tampered_token_is_rejected() {
    let claims = Claims { sub: "acc".to_owned(), exp: now() + 60 };
    let token = gen_jwt_token(SECRET, &claims).unwrap();
    let other = gen_jwt_token(SECRET, &Claims { sub: "bcc".to_owned(), exp: claims.exp }).unwrap();
    let parts: Vec<&str> = token.split('.').collect();
    let other_parts: Vec<&str> = other.split('.').collect();
    let forged = format!("{}.{}.{}", parts[0], other_parts[1], parts[2]);
    assert_eq!(decode_jwt_token(SECRET, &forged).unwrap_err(), TokenError::InvalidSignature);
}

#[test]
fn malformed_tokens() {
    assert_eq!(decode_jwt_token(SECRET, "not-a-token").unwrap_err(), TokenError::MalformedClaims);
    assert_eq!(decode_jwt_token(SECRET, "a.b.c.d").unwrap_err(), TokenError::MalformedClaims);
}

#[test]
fn claims_outcomes() {
    let ok = check_claims(Ok((Some("s".to_owned()), Some(10))), 9).unwrap();
    assert_eq!(ok.sub, "s");
    assert_eq!(ok.exp, 10);
    assert_eq!(check_claims(Ok((Some("s".to_owned()), Some(10))), 10).unwrap_err(), TokenError::Expired);
    assert_eq!(check_claims(Ok((None, Some(10))), 0).unwrap_err(), TokenError::MalformedClaims);
    assert_eq!(check_claims(Ok((Some("s".to_owned()), None)), 0).unwrap_err(), TokenError::MalformedClaims);
    assert_eq!(
        check_claims(Ok((Some("s".to_owned()), Some(u64::MAX))), 0).unwrap_err(),
        TokenError::MalformedClaims
    );
    assert_eq!(check_claims(Err(JwtFailure::Signature), 0).unwrap_err(), TokenError::InvalidSignature);
    assert_eq!(check_claims(Err(JwtFailure::Malformed), 0).unwrap_err(), TokenError::MalformedClaims);
    assert_eq!(check_claims(Err(JwtFailure::Key), 0).unwrap_err(), TokenError::SigningError);
}

#[test]
fn negative_expiry_cannot_be_signed() {
    let claims = Claims { sub: "acc".to_owned(), exp: -1 };
    assert_eq!(gen_jwt_token(SECRET, &claims).unwrap_err(), TokenError::ExpiryOutOfRange);
}

fn token_config() -> TokenConfig {
    TokenConfig {
        secret_key: SECRET.to_owned(),
        access_token_seconds: 60,
        refresh_token_seconds: 3600,
    }
}

#[test]
fn issue_pair_at_a_given_time() {
    let pair = issue_pair(&token_config(), "acc", 1000).unwrap();
    assert_eq!(pair.subject, "acc");
    assert_eq!(pair.access_expires_at, 1060);
    assert_eq!(pair.refresh_expires_at, 4600);
    let access = decode_jwt_token_at(SECRET, &pair.access.value(), 1059).unwrap();
    assert_eq!(access.exp, 1060);
    assert_eq!(access.sub, "acc");
    let refresh = decode_jwt_token_at(SECRET, &pair.refresh.value(), 1060).unwrap();
    assert_eq!(refresh.exp, 4600);
    assert_ne!(pair.access.value(), pair.refresh.value());
}

#[test]
fn issue_pair_overflow() {
    let mut config = token_config();
    config.refresh_token_seconds = i64::MAX;
    assert_eq!(issue_pair(&config, "acc", 1).unwrap_err(), TokenError::ExpiryOutOfRange);
    config.refresh_token_seconds = -2000;
    assert_eq!(issue_pair(&config, "acc", 1000).unwrap_err(), TokenError::ExpiryOutOfRange);
}

#[test]
fn issued_tokens_are_valid_now() {
    let pair = gen_jwt_tokens(&token_config(), "acc").unwrap();
    let access = decode_jwt_token(SECRET, &pair.access.value()).unwrap();
    assert_eq!(access.sub, "acc");
    assert_eq!(access.exp, pair.access_expires_at);
    assert_eq!(pair.refresh_expires_at - pair.access_expires_at, 3540);
}

#[test]
fn bearer_tokens_from_headers() {
    assert_eq!(bearer_token("Bearer abc"), Some("abc".to_owned()));
    assert_eq!(bearer_token("  Bearer \t x.y.z \n"), Some("x.y.z".to_owned()));
    assert_eq!(bearer_token("Bearer a Bearer b"), Some("a".to_owned()));
    assert_eq!(bearer_token("Bearer"), Some("".to_owned()));
    assert_eq!(bearer_token("Basic abc"), None);
    assert_eq!(bearer_token(""), None);
}

#[test]
fn authorization_header_decisions() {
    assert!(matches!(JwtAuth::from_header(SECRET, None, 0), Ok(JwtAuth::Anonymous)));
    assert_eq!(
        JwtAuth::from_header(SECRET, Some("Basic abc"), 0).unwrap_err(),
        TokenError::MalformedClaims
    );
    let token = gen_jwt_token(SECRET, &Claims { sub: "acc".to_owned(), exp: 50 }).unwrap();
    let header = format!("Bearer {}", token);
    match JwtAuth::from_header(SECRET, Some(&header), 49) {
        Ok(JwtAuth::Authenticate(c)) => {
            assert_eq!(c.sub, "acc");
            assert_eq!(c.exp, 50);
        }
        _ => panic!("the header should authenticate"),
    }
    assert_eq!(
        JwtAuth::from_header(SECRET, Some(&header), 50).unwrap_err(),
        TokenError::Expired
    );
}
