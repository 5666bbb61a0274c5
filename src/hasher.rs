use crate::algorithm::{func_named, PasswordHashFunc};
use crate::codec::{
    decode_record, decode_spec, encode, encode_spec, lemma_round_trip, DecodeError, RecordView,
    StoredPasswordRecord,
};
use crate::digest::{digest_hex, digest_len, hash_func_doit};
use crate::salt::{is_salt_spec, SaultProvider};
use vstd::prelude::*;
use vstd::string::*;

verus! {

/// The hashing parameters a process is configured with.
#[derive(Clone, Debug)]
pub struct PasswordConfig {
    /// The digest function new passwords are hashed with.
    pub hash_func: PasswordHashFunc,
    /// How many times the digest is applied.
    pub rounds: u32,
    /// How many characters a new salt has.
    pub sault_len: usize,
    /// The server-side secret appended after the salt; it is never stored.
    pub pepper: String,
}

/// The digest function a configuration names.
pub fn password_hash_func(value: &str) -> (r: Option<PasswordHashFunc>)
    ensures
        r == func_named(value@),
{
    PasswordHashFunc::from_name(value)
}

/// `n` applications of `f` to `s`.
pub open spec fn hash_rounds(f: PasswordHashFunc, s: Seq<char>, n: nat) -> Seq<char>
    decreases n,
{
    if n == 0 {
        s
    } else {
        digest_hex(f, hash_rounds(f, s, (n - 1) as nat))
    }
}

/// The hash of a password: the password, the salt and the pepper are joined
/// without separators and digested `rounds` times.
pub open spec fn hash_spec(
    raw: Seq<char>,
    salt: Seq<char>,
    pepper: Seq<char>,
    f: PasswordHashFunc,
    rounds: u32,
) -> Seq<char> {
    hash_rounds(f, raw + salt + pepper, rounds as nat)
}

/// A record that hashing `raw` under `config` may produce: the configured
/// parameters, a salt of the configured length from the salt alphabet, and
/// the hash of the password with that salt, which after one round or more
/// is one hexadecimal digest long.
pub open spec fn fresh_record(config: PasswordConfig, raw: Seq<char>, rec: RecordView) -> bool {
    &&& rec == record_of(config, raw, rec.salt)
    &&& rec.salt_len == config.sault_len
    &&& rec.wf()
    &&& is_salt_spec(rec.salt)
    &&& config.rounds > 0 ==> rec.digest.len() == 2 * digest_len(config.hash_func)
}

/// The record of `raw` hashed under `config` with the salt `salt`.
pub open spec fn record_of(config: PasswordConfig, raw: Seq<char>, salt: Seq<char>) -> RecordView {
    RecordView {
        algorithm: config.hash_func,
        rounds: config.rounds,
        salt_len: salt.len() as usize,
        salt: salt,
        digest: hash_spec(raw, salt, config.pepper@, config.hash_func, config.rounds),
    }
}

/// What checking `raw` against the stored text gives: the decoding error, or
/// whether the hash recomputed with the stored parameters and the current
/// pepper equals the stored digest.
pub open spec fn verify_spec(raw: Seq<char>, stored: Seq<char>, pepper: Seq<char>) -> Result<
    bool,
    DecodeError,
> {
    match decode_spec(stored) {
        Err(e) => Err(e),
        Ok(rec) => Ok(hash_spec(raw, rec.salt, pepper, rec.algorithm, rec.rounds) == rec.digest),
    }
}

/// Hashes `raw` with `sault` and `pepper` appended, `round` times with `func`.
/// With no rounds the joined text itself is returned.
pub fn gen_hashed_password(
    raw: &str,
    sault: &str,
    pepper: &str,
    func: PasswordHashFunc,
    round: u32,
) -> (r: String)
    ensures
        r@ == hash_spec(raw@, sault@, pepper@, func, round),
        round > 0 ==> r@.len() == 2 * digest_len(func),
{
    let mut hashed = String::from_str(raw);
    hashed.append(sault);
    hashed.append(pepper);
    let ghost joined = hashed@;
    let mut i: u32 = 0;
    while i < round
        invariant
            i <= round,
            joined == raw@ + sault@ + pepper@,
            hashed@ == hash_rounds(func, joined, i as nat),
            i > 0 ==> hashed@.len() == 2 * digest_len(func),
        decreases round - i,
    {
        hashed = hash_func_doit(func, hashed.as_str());
        i = i + 1;
    }
    hashed
}

/// Hashes `raw` under `config` with the given salt.
pub fn hash_with_salt(config: &PasswordConfig, raw: &str, salt: String) -> (r: StoredPasswordRecord)
    ensures
        r@ == record_of(*config, raw@, salt@),
        r@.wf(),
        config.rounds > 0 ==> r.digest@.len() == 2 * digest_len(config.hash_func),
{
    let hashed = gen_hashed_password(
        raw,
        salt.as_str(),
        config.pepper.as_str(),
        config.hash_func,
        config.rounds,
    );
    let salt_len = salt.as_str().unicode_len();
    StoredPasswordRecord {
        algorithm: config.hash_func,
        rounds: config.rounds,
        salt_len,
        salt,
        digest: hashed,
    }
}

/// Hashes a new password: the provider draws one salt of the configured
/// length, and the record is [`hash_with_salt`] of that salt.
pub fn hash_new<P: SaultProvider>(provider: &P, config: &PasswordConfig, raw: &str) -> (r:
    StoredPasswordRecord)
    ensures
        fresh_record(*config, raw@, r@),
{
    let sault = provider.generate(config.sault_len);
    hash_with_salt(config, raw, sault)
}

/// Hashes a new password and returns its stored text,
/// `<algo>$<round>$<sault_len>$<sault>$<hashed>`.
pub fn hash_password<P: SaultProvider>(provider: &P, config: &PasswordConfig, raw: &str) -> (r:
    String)
    ensures
        exists|rec: RecordView| fresh_record(*config, raw@, rec) && r@ == encode_spec(rec),
{
    let record = hash_new(provider, config, raw);
    encode(&record)
}

/// Checks a password against a stored record, using the stored algorithm,
/// rounds and salt and the given pepper.
pub fn verify_password(raw_password: &str, hashed_password: &str, pepper: &str) -> (r: Result<
    bool,
    DecodeError,
>)
    ensures
        r == verify_spec(raw_password@, hashed_password@, pepper@),
{
    let record = match decode_record(hashed_password) {
        Err(e) => return Err(e),
        Ok(rec) => rec,
    };
    let target = gen_hashed_password(
        raw_password,
        record.salt.as_str(),
        pepper,
        record.algorithm,
        record.rounds,
    );
    Ok(target == record.digest)
}

/// Hashing is a function of its inputs: the same password, salt, pepper,
/// digest function and rounds always give the same text, and one round more
/// is one more digest of the previous result.
pub proof fn lemma_hash_deterministic(
    raw: Seq<char>,
    salt: Seq<char>,
    pepper: Seq<char>,
    f: PasswordHashFunc,
    rounds: u32,
    r1: Seq<char>,
    r2: Seq<char>,
)
    requires
        r1 == hash_spec(raw, salt, pepper, f, rounds),
        r2 == hash_spec(raw, salt, pepper, f, rounds),
    ensures
        r1 == r2,
        rounds == 0 ==> r1 == raw + salt + pepper,
        rounds > 0 ==> r1 == digest_hex(f, hash_spec(raw, salt, pepper, f, (rounds - 1) as u32)),
{
}

/// A freshly hashed password verifies against its own stored text. With no
/// rounds, any other password is rejected.
pub proof fn lemma_verify_round_trip(
    config: PasswordConfig,
    raw: Seq<char>,
    other: Seq<char>,
    rec: RecordView,
)
    requires
        fresh_record(config, raw, rec),
    ensures
        verify_spec(raw, encode_spec(rec), config.pepper@) == Ok::<bool, DecodeError>(true),
        other != raw && rec.rounds == 0 ==> verify_spec(other, encode_spec(rec), config.pepper@)
            == Ok::<bool, DecodeError>(false),
{
    lemma_round_trip(rec);
    if other != raw && rec.rounds == 0 {
        let p = config.pepper@;
        let x = other + rec.salt + p;
        let y = raw + rec.salt + p;
        if x == y {
            assert(other.len() == raw.len());
            assert(x.subrange(0, other.len() as int) =~= other);
            assert(y.subrange(0, raw.len() as int) =~= raw);
        }
    }
}

} // verus!
