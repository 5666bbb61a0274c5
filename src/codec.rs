use crate::algorithm::{
    func_named, lemma_name_has_no_delimiter, lemma_name_round_trip, name_of, PasswordHashFunc,
};
use crate::text::{
    chars_of, decimal, decimal_string, find_delim, first_delim, is_digit, lemma_decimal_digits,
    lemma_first_delim_at, lemma_first_delim_props, lemma_parse_decimal, lemma_parse_nonneg, parse_unsigned,
    parse_unsigned_at,
};
use vstd::prelude::*;
use vstd::string::*;

verus! {

/// Why a stored password record could not be read.
#[derive(Clone, Copy, Debug, PartialEq, Eq, Structural)]
pub enum DecodeError {
    /// No `$` ends the algorithm name.
    MissingAlgorithm,
    /// The algorithm name is not one of the known digest functions.
    UnknownAlgorithm,
    /// No `$` ends the round count.
    MissingRounds,
    /// The round count is not an unsigned 32-bit number.
    InvalidRounds,
    /// No `$` ends the salt length.
    MissingSaltLength,
    /// The salt length is not an unsigned number of machine size.
    InvalidSaltLength,
    /// Fewer characters remain than the salt length declares.
    SaltTooShort,
}

/// A hashed password with the parameters it was hashed with.
#[derive(Clone, Debug)]
pub struct StoredPasswordRecord {
    pub algorithm: PasswordHashFunc,
    pub rounds: u32,
    pub salt_len: usize,
    pub salt: String,
    pub digest: String,
}

/// The mathematical content of a [`StoredPasswordRecord`].
pub ghost struct RecordView {
    pub algorithm: PasswordHashFunc,
    pub rounds: u32,
    pub salt_len: usize,
    pub salt: Seq<char>,
    pub digest: Seq<char>,
}

impl RecordView {
    /// A record is well formed when its salt is as long as it declares.
    pub open spec fn wf(&self) -> bool {
        self.salt.len() == self.salt_len as int
    }
}

impl View for StoredPasswordRecord {
    type V = RecordView;

    open spec fn view(&self) -> RecordView {
        RecordView {
            algorithm: self.algorithm,
            rounds: self.rounds,
            salt_len: self.salt_len,
            salt: self.salt@,
            digest: self.digest@,
        }
    }
}

/// The fields of a record in text form: algorithm name, rounds, salt length,
/// salt and digest.
pub type FieldsView = (Seq<char>, u32, usize, Seq<char>, Seq<char>);

/// Where the digest starts: one character past the salt, or at the end when
/// nothing follows the salt.
pub open spec fn digest_start(s: Seq<char>, salt_end: int) -> int {
    if salt_end < s.len() {
        salt_end + 1
    } else {
        salt_end
    }
}

/// Reads `algorithm$rounds$saltLength$salt$digest`: the first three fields
/// end at the next `$`, the algorithm name must be one of the known names, the salt is the declared number of characters, one
/// character after it is skipped, and the digest is all that remains.
pub open spec fn decode_fields(s: Seq<char>) -> Result<FieldsView, DecodeError> {
    let a = first_delim(s, 0);
    if a < 0 {
        Err(DecodeError::MissingAlgorithm)
    } else if func_named(s.subrange(0, a)) is None {
        Err(DecodeError::UnknownAlgorithm)
    } else {
        let r = first_delim(s, a + 1);
        if r < 0 {
            Err(DecodeError::MissingRounds)
        } else {
            match parse_unsigned(s.subrange(a + 1, r), u32::MAX as int) {
                None => Err(DecodeError::InvalidRounds),
                Some(rounds) => {
                    let l = first_delim(s, r + 1);
                    if l < 0 {
                        Err(DecodeError::MissingSaltLength)
                    } else {
                        match parse_unsigned(s.subrange(r + 1, l), usize::MAX as int) {
                            None => Err(DecodeError::InvalidSaltLength),
                            Some(n) => {
                                if l + 1 + n > s.len() {
                                    Err(DecodeError::SaltTooShort)
                                } else {
                                    Ok(
                                        (
                                            s.subrange(0, a),
                                            rounds as u32,
                                            n as usize,
                                            s.subrange(l + 1, l + 1 + n),
                                            s.subrange(digest_start(s, l + 1 + n), s.len() as int),
                                        ),
                                    )
                                }
                            },
                        }
                    }
                },
            }
        }
    }
}

/// Reads a stored record, with its algorithm name as one of the known digest
/// functions.
pub open spec fn decode_spec(s: Seq<char>) -> Result<RecordView, DecodeError> {
    match decode_fields(s) {
        Err(e) => Err(e),
        Ok(t) => Ok(
            RecordView {
                algorithm: func_named(t.0)->Some_0,
                rounds: t.1,
                salt_len: t.2,
                salt: t.3,
                digest: t.4,
            },
        ),
    }
}

/// The stored text of a record: `algorithm$rounds$saltLength$salt$digest`.
pub open spec fn encode_spec(r: RecordView) -> Seq<char> {
    name_of(r.algorithm) + seq!['$'] + decimal(r.rounds as nat) + seq!['$'] + decimal(
        r.salt_len as nat,
    ) + seq!['$'] + r.salt + seq!['$'] + r.digest
}

/// Decoding the encoding of a well-formed record gives the record back.
pub proof fn lemma_round_trip(r: RecordView)
    requires
        r.wf(),
    ensures
        decode_spec(encode_spec(r)) == Ok::<RecordView, DecodeError>(r),
{
    let n = name_of(r.algorithm);
    let rd = decimal(r.rounds as nat);
    let ld = decimal(r.salt_len as nat);
    let dl = seq!['$'];
    let e = encode_spec(r);
    let a = n.len() as int;
    let rp = a + 1 + rd.len();
    let lp = rp + 1 + ld.len();
    let se = lp + 1 + r.salt_len;
    lemma_name_has_no_delimiter(r.algorithm);
    lemma_name_round_trip(r.algorithm);
    lemma_decimal_digits(r.rounds as nat);
    lemma_decimal_digits(r.salt_len as nat);
    lemma_parse_decimal(r.rounds as nat, u32::MAX as int);
    lemma_parse_decimal(r.salt_len as nat, usize::MAX as int);
    assert(e.len() == se + 1 + r.digest.len());
    assert(e.subrange(0, a) =~= n);
    assert(e.subrange(a + 1, rp) =~= rd);
    assert(e.subrange(rp + 1, lp) =~= ld);
    assert(e.subrange(lp + 1, se) =~= r.salt);
    assert(e.subrange(se + 1, e.len() as int) =~= r.digest);
    assert(e[a] == '$' && e[rp] == '$' && e[lp] == '$' && e[se] == '$');
    assert forall|j: int| 0 <= j < a implies e[j] != '$' by {
        assert(e[j] == e.subrange(0, a)[j]);
    }
    assert forall|j: int| a + 1 <= j < rp implies e[j] != '$' by {
        assert(e[j] == e.subrange(a + 1, rp)[j - (a + 1)]);
        assert(is_digit(rd[j - (a + 1)]));
    }
    assert forall|j: int| rp + 1 <= j < lp implies e[j] != '$' by {
        assert(e[j] == e.subrange(rp + 1, lp)[j - (rp + 1)]);
        assert(is_digit(ld[j - (rp + 1)]));
    }
    lemma_first_delim_at(e, 0, a);
    lemma_first_delim_at(e, a + 1, rp);
    lemma_first_delim_at(e, rp + 1, lp);
    assert(decode_spec(e) == Ok::<RecordView, DecodeError>(r));
}

/// A successfully decoded record is well formed.
pub proof fn lemma_decoded_wf(s: Seq<char>)
    ensures
        decode_spec(s) is Ok ==> decode_spec(s)->Ok_0.wf(),
{
    let a = first_delim(s, 0);
    lemma_first_delim_props(s, 0);
    if a >= 0 {
        let r = first_delim(s, a + 1);
        lemma_first_delim_props(s, a + 1);
        if r >= 0 {
            lemma_first_delim_props(s, r + 1);
            let l = first_delim(s, r + 1);
            lemma_parse_nonneg(s.subrange(a + 1, r), u32::MAX as int);
            if l >= 0 {
                lemma_parse_nonneg(s.subrange(r + 1, l), usize::MAX as int);
            }
        }
    }
}

/// The text form of a record.
pub fn encode(record: &StoredPasswordRecord) -> (r: String)
    ensures
        r@ == encode_spec(record@),
{
    proof {
        reveal_strlit("$");
    }
    let mut out = record.algorithm.name();
    out.append("$");
    let rounds = decimal_string(record.rounds as u64);
    out.append(rounds.as_str());
    out.append("$");
    let len = decimal_string(record.salt_len as u64);
    out.append(len.as_str());
    out.append("$");
    out.append(record.salt.as_str());
    out.append("$");
    out.append(record.digest.as_str());
    out
}

/// Splits a stored record into algorithm name, rounds, salt length, salt and
/// digest. The algorithm name must be one of the known names.
pub fn decode_password(password: &str) -> (r: Result<(String, u32, usize, String, String), DecodeError>)
    ensures
        match r {
            Ok(t) => decode_fields(password@) == Ok::<FieldsView, DecodeError>(
                (t.0@, t.1, t.2, t.3@, t.4@),
            ),
            Err(e) => decode_fields(password@) == Err::<FieldsView, DecodeError>(e),
        },
{
    let s = chars_of(password);
    let ghost sv = s@;
    proof {
        lemma_first_delim_props(sv, 0);
    }
    let a = match find_delim(&s, 0) {
        None => return Err(DecodeError::MissingAlgorithm),
        Some(a) => a,
    };
    if PasswordHashFunc::from_name(password.substring_char(0, a)).is_none() {
        return Err(DecodeError::UnknownAlgorithm);
    }
    proof {
        lemma_first_delim_props(sv, a + 1);
    }
    let r = match find_delim(&s, a + 1) {
        None => return Err(DecodeError::MissingRounds),
        Some(r) => r,
    };
    let rounds = match parse_unsigned_at(&s, a + 1, r, u32::MAX as u64) {
        None => return Err(DecodeError::InvalidRounds),
        Some(v) => v,
    };
    proof {
        lemma_first_delim_props(sv, r + 1);
    }
    let l = match find_delim(&s, r + 1) {
        None => return Err(DecodeError::MissingSaltLength),
        Some(l) => l,
    };
    let n = match parse_unsigned_at(&s, r + 1, l, usize::MAX as u64) {
        None => return Err(DecodeError::InvalidSaltLength),
        Some(v) => v as usize,
    };
    if n > s.len() - (l + 1) {
        return Err(DecodeError::SaltTooShort);
    }
    let salt_end = l + 1 + n;
    let start = if salt_end < s.len() {
        salt_end + 1
    } else {
        salt_end
    };
    let algo = password.substring_char(0, a).to_owned();
    let salt = password.substring_char(l + 1, salt_end).to_owned();
    let hashed = password.substring_char(start, s.len()).to_owned();
    Ok((algo, rounds as u32, n, salt, hashed))
}

/// Reads a stored record: the algorithm name must name a known digest
/// function, and the other fields are read as [`decode_password`] reads them.
pub fn decode_record(text: &str) -> (r: Result<StoredPasswordRecord, DecodeError>)
    ensures
        match r {
            Ok(rec) => decode_spec(text@) == Ok::<RecordView, DecodeError>(rec@),
            Err(e) => decode_spec(text@) == Err::<RecordView, DecodeError>(e),
        },
        r is Ok ==> r->Ok_0@.wf(),
{
    proof {
        lemma_decoded_wf(text@);
    }
    match decode_password(text) {
        Err(e) => Err(e),
        Ok(t) => match PasswordHashFunc::from_name(t.0.as_str()) {
            None => Err(DecodeError::UnknownAlgorithm),
            Some(algorithm) => Ok(
                StoredPasswordRecord {
                    algorithm,
                    rounds: t.1,
                    salt_len: t.2,
                    salt: t.3,
                    digest: t.4,
                },
            ),
        },
    }
}

} // verus!
