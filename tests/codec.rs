use credentials::algorithm::PasswordHashFunc;
use credentials::codec::{decode_password, decode_record, encode, DecodeError, StoredPasswordRecord};

#[test]
fn test_decode_password() {
    let algo = "SHA-256";
    let round: u32 = 10;
    let sault = "this-is-sault";
    let len = sault.len();
    let hashed = "this-is-hashed-password";
    let password = format!("{}${}${}${}${}", algo, round, len, sault, hashed);
    let result = decode_password(&password);
    assert!(result.is_ok());
    assert_eq!(result.as_ref().unwrap().0, algo);
    assert_eq!(result.as_ref().unwrap().1, round);
    assert_eq!(result.as_ref().unwrap().2, len);
    assert_eq!(result.as_ref().unwrap().3, sault);
    assert_eq!(result.as_ref().unwrap().4, hashed);
}

#[test]
fn decode_empty_is_missing_algorithm() {
    assert_eq!(decode_record("").unwrap_err(), DecodeError::MissingAlgorithm);
}

#[test]
fn decode_unknown_algorithm() {
    assert_eq!(
        decode_record("BOGUS$1$4$abcd$hash").unwrap_err(),
        DecodeError::UnknownAlgorithm
    );
}

#[test]
fn decode_invalid_rounds() {
    assert_eq!(
        decode_record("SHA-256$notanumber$4$abcd$hash").unwrap_err(),
        DecodeError::InvalidRounds
    );
}

#[test]
fn decode_salt_too_short() {
    assert_eq!(
        decode_record("SHA-256$1$100$short$hash").unwrap_err(),
        DecodeError::SaltTooShort
    );
}

#[test]
fn decode_each_missing_and_invalid_field() {
    assert_eq!(decode_record("SHA-256").unwrap_err(), DecodeError::MissingAlgorithm);
    assert_eq!(decode_record("SHA-256$1").unwrap_err(), DecodeError::MissingRounds);
    assert_eq!(decode_record("SHA-256$$4$abcd$h").unwrap_err(), DecodeError::InvalidRounds);
    assert_eq!(decode_record("SHA-256$4294967296$4$abcd$h").unwrap_err(), DecodeError::InvalidRounds);
    assert_eq!(decode_record("SHA-256$-1$4$abcd$h").unwrap_err(), DecodeError::InvalidRounds);
    assert_eq!(decode_record("SHA-256$1$4").unwrap_err(), DecodeError::MissingSaltLength);
    assert_eq!(decode_record("SHA-256$1$x$abcd$h").unwrap_err(), DecodeError::InvalidSaltLength);
    assert_eq!(decode_record("SHA-256$1$$abcd$h").unwrap_err(), DecodeError::InvalidSaltLength);
}

#[test]
fn decode_unknown_algorithm_comes_before_rounds() {
    assert_eq!(
        decode_record("BOGUS$notanumber$4$abcd$hash").unwrap_err(),
        DecodeError::UnknownAlgorithm
    );
    assert_eq!(
        decode_password("BOGUS$notanumber$4$abcd$hash").unwrap_err(),
        DecodeError::UnknownAlgorithm
    );
    assert_eq!(decode_password("SHA256$1$4$abcd$hash").unwrap_err(), DecodeError::UnknownAlgorithm);
}

#[test]
fn decode_numbers_as_unsigned_from_str() {
    let r = decode_record("SHA-256$+7$4$abcd$h").unwrap();
    assert_eq!(r.rounds, 7);
    assert_eq!(decode_record("SHA-256$+$4$abcd$h").unwrap_err(), DecodeError::InvalidRounds);
    let r = decode_record("SHA-256$4294967295$004$abcd$h").unwrap();
    assert_eq!(r.rounds, u32::MAX);
    assert_eq!(r.salt_len, 4);
}

#[test]
fn decode_salt_is_positional_and_digest_takes_the_rest() {
    let r = decode_record("SHA-512$3$4$a$c$$x$y$z").unwrap();
    assert_eq!(r.algorithm, PasswordHashFunc::SHA512);
    assert_eq!(r.salt, "a$c$");
    assert_eq!(r.digest, "x$y$z");
    let r = decode_record("SHA-512$3$4$abcd").unwrap();
    assert_eq!(r.salt, "abcd");
    assert_eq!(r.digest, "");
    let r = decode_record("SHA-512$3$0$$dd").unwrap();
    assert_eq!(r.salt, "");
    assert_eq!(r.digest, "dd");
}

#[test]
fn encode_formats_all_fields() {
    let record = StoredPasswordRecord {
        algorithm: PasswordHashFunc::SHA512_224,
        rounds: 12,
        salt_len: 3,
        salt: "x!y".to_owned(),
        digest: "00ff".to_owned(),
    };
    assert_eq!(encode(&record), "SHA-512/224$12$3$x!y$00ff");
}

#[test]
fn encode_then_decode_round_trips() {
    let funcs = [
        PasswordHashFunc::SHA224,
        PasswordHashFunc::SHA256,
        PasswordHashFunc::SHA384,
        PasswordHashFunc::SHA512,
        PasswordHashFunc::SHA512_224,
        PasswordHashFunc::SHA512_256,
    ];
    for f in funcs {
        let record = StoredPasswordRecord {
            algorithm: f,
            rounds: 0,
            salt_len: 5,
            salt: "$$$$$".to_owned(),
            digest: "d$g".to_owned(),
        };
        let back = decode_record(&encode(&record)).unwrap();
        assert_eq!(back.algorithm, record.algorithm);
        assert_eq!(back.rounds, record.rounds);
        assert_eq!(back.salt_len, record.salt_len);
        assert_eq!(back.salt, record.salt);
        assert_eq!(back.digest, record.digest);
    }
}

#[test]
fn algorithm_names_parse_back() {
    assert_eq!(PasswordHashFunc::SHA512_256.name(), "SHA-512/256");
    assert_eq!(PasswordHashFunc::from_name("SHA-384"), Some(PasswordHashFunc::SHA384));
    assert_eq!(PasswordHashFunc::from_name("SHA384"), None);
    assert_eq!(PasswordHashFunc::from_name("sha-384"), None);
}

#[test]
fn encode_renders_numbers_in_decimal() {
    let record = StoredPasswordRecord {
        algorithm: PasswordHashFunc::SHA256,
        rounds: u32::MAX,
        salt_len: 0,
        salt: String::new(),
        digest: "d".to_owned(),
    };
    assert_eq!(encode(&record), "SHA-256$4294967295$0$$d");
    let record = StoredPasswordRecord { rounds: 1000, salt_len: 10, salt: "0123456789".to_owned(), ..record };
    assert_eq!(encode(&record), "SHA-256$1000$10$0123456789$d");
}
