use crate::hasher::{fresh_record, hash_password, PasswordConfig};
use crate::codec::{encode_spec, RecordView};
use crate::salt::SaultProvider;
use crate::text::{chars_of, is_digit};
use vstd::prelude::*;
use vstd::string::*;

verus! {

/// Why a value was rejected.
#[derive(Clone, Copy, Debug, PartialEq, Eq, Structural)]
pub enum ValidationError {
    /// An account name must have from 2 to 20 characters.
    AccountNameLength,
    /// A password must have at least 8 characters.
    PasswordTooShort,
    /// A password must hold an ASCII letter.
    PasswordWithoutAlphabet,
    /// A password must hold a lowercase ASCII letter.
    PasswordWithoutLowercase,
    /// A password must hold an uppercase ASCII letter.
    PasswordWithoutUppercase,
    /// A password must hold an ASCII digit.
    PasswordWithoutDigit,
    /// A password must hold a space or an ASCII punctuation sign.
    PasswordWithoutSign,
    /// Not an email address.
    InvalidEmailAddress,
    /// Not a phone number of the form `0d-d-dddd`.
    InvalidPhoneNumber,
    /// Not a postal code of the form `ddd-dddd`.
    InvalidPostalCode,
    /// Address details must have from 2 to 100 characters.
    AddressDetailsLength,
    /// At least one of the fixed and mobile numbers is needed.
    NoPhoneNumber,
    /// A token cannot be empty.
    EmptyToken,
}

pub const ACCOUNT_NAME_MIN_LENGTH: usize = 2;

pub const ACCOUNT_NAME_MAX_LENGTH: usize = 20;

pub const RAW_PASSWORD_MIN_LENGTH: usize = 8;

pub const ADDRESS_DETAILS_MIN_LENGTH: usize = 2;

pub const ADDRESS_DETAILS_MAX_LENGTH: usize = 100;

/// A kind of character a password must hold.
#[derive(Clone, Copy, Debug, PartialEq, Eq, Structural)]
pub enum CharClass {
    Alphabetic,
    Lowercase,
    Uppercase,
    Digit,
    Sign,
}

/// Whether `c` is of the class `k`. Signs are the space and the ASCII
/// punctuation characters.
pub open spec fn in_class(c: char, k: CharClass) -> bool {
    match k {
        CharClass::Alphabetic => ('a' <= c && c <= 'z') || ('A' <= c && c <= 'Z'),
        CharClass::Lowercase => 'a' <= c && c <= 'z',
        CharClass::Uppercase => 'A' <= c && c <= 'Z',
        CharClass::Digit => is_digit(c),
        CharClass::Sign => (' ' <= c && c <= '/') || (':' <= c && c <= '@') || ('[' <= c && c
            <= '`') || ('{' <= c && c <= '~'),
    }
}

/// Whether some character of `s` is of the class `k`.
pub open spec fn has_class(s: Seq<char>, k: CharClass) -> bool {
    exists|i: int| 0 <= i < s.len() && in_class(#[trigger] s[i], k)
}

/// The checks a password passes, in order, with the first one it fails.
pub open spec fn raw_password_check(s: Seq<char>) -> Result<(), ValidationError> {
    if s.len() < RAW_PASSWORD_MIN_LENGTH {
        Err(ValidationError::PasswordTooShort)
    } else if !has_class(s, CharClass::Alphabetic) {
        Err(ValidationError::PasswordWithoutAlphabet)
    } else if !has_class(s, CharClass::Lowercase) {
        Err(ValidationError::PasswordWithoutLowercase)
    } else if !has_class(s, CharClass::Uppercase) {
        Err(ValidationError::PasswordWithoutUppercase)
    } else if !has_class(s, CharClass::Digit) {
        Err(ValidationError::PasswordWithoutDigit)
    } else if !has_class(s, CharClass::Sign) {
        Err(ValidationError::PasswordWithoutSign)
    } else {
        Ok(())
    }
}

/// Whether `c` is a decimal digit of any script: the Unicode general
/// category `Nd` (Unicode 16.0), which is what `\d` matches in a Unicode
/// regular expression.
pub open spec fn is_decimal_digit(c: char) -> bool {
    ('\u{30}' <= c && c <= '\u{39}')
        || ('\u{660}' <= c && c <= '\u{669}')
        || ('\u{6f0}' <= c && c <= '\u{6f9}')
        || ('\u{7c0}' <= c && c <= '\u{7c9}')
        || ('\u{966}' <= c && c <= '\u{96f}')
        || ('\u{9e6}' <= c && c <= '\u{9ef}')
        || ('\u{a66}' <= c && c <= '\u{a6f}')
        || ('\u{ae6}' <= c && c <= '\u{aef}')
        || ('\u{b66}' <= c && c <= '\u{b6f}')
        || ('\u{be6}' <= c && c <= '\u{bef}')
        || ('\u{c66}' <= c && c <= '\u{c6f}')
        || ('\u{ce6}' <= c && c <= '\u{cef}')
        || ('\u{d66}' <= c && c <= '\u{d6f}')
        || ('\u{de6}' <= c && c <= '\u{def}')
        || ('\u{e50}' <= c && c <= '\u{e59}')
        || ('\u{ed0}' <= c && c <= '\u{ed9}')
        || ('\u{f20}' <= c && c <= '\u{f29}')
        || ('\u{1040}' <= c && c <= '\u{1049}')
        || ('\u{1090}' <= c && c <= '\u{1099}')
        || ('\u{17e0}' <= c && c <= '\u{17e9}')
        || ('\u{1810}' <= c && c <= '\u{1819}')
        || ('\u{1946}' <= c && c <= '\u{194f}')
        || ('\u{19d0}' <= c && c <= '\u{19d9}')
        || ('\u{1a80}' <= c && c <= '\u{1a89}')
        || ('\u{1a90}' <= c && c <= '\u{1a99}')
        || ('\u{1b50}' <= c && c <= '\u{1b59}')
        || ('\u{1bb0}' <= c && c <= '\u{1bb9}')
        || ('\u{1c40}' <= c && c <= '\u{1c49}')
        || ('\u{1c50}' <= c && c <= '\u{1c59}')
        || ('\u{a620}' <= c && c <= '\u{a629}')
        || ('\u{a8d0}' <= c && c <= '\u{a8d9}')
        || ('\u{a900}' <= c && c <= '\u{a909}')
        || ('\u{a9d0}' <= c && c <= '\u{a9d9}')
        || ('\u{a9f0}' <= c && c <= '\u{a9f9}')
        || ('\u{aa50}' <= c && c <= '\u{aa59}')
        || ('\u{abf0}' <= c && c <= '\u{abf9}')
        || ('\u{ff10}' <= c && c <= '\u{ff19}')
        || ('\u{104a0}' <= c && c <= '\u{104a9}')
        || ('\u{10d30}' <= c && c <= '\u{10d39}')
        || ('\u{10d40}' <= c && c <= '\u{10d49}')
        || ('\u{11066}' <= c && c <= '\u{1106f}')
        || ('\u{110f0}' <= c && c <= '\u{110f9}')
        || ('\u{11136}' <= c && c <= '\u{1113f}')
        || ('\u{111d0}' <= c && c <= '\u{111d9}')
        || ('\u{112f0}' <= c && c <= '\u{112f9}')
        || ('\u{11450}' <= c && c <= '\u{11459}')
        || ('\u{114d0}' <= c && c <= '\u{114d9}')
        || ('\u{11650}' <= c && c <= '\u{11659}')
        || ('\u{116c0}' <= c && c <= '\u{116c9}')
        || ('\u{116d0}' <= c && c <= '\u{116e3}')
        || ('\u{11730}' <= c && c <= '\u{11739}')
        || ('\u{118e0}' <= c && c <= '\u{118e9}')
        || ('\u{11950}' <= c && c <= '\u{11959}')
        || ('\u{11bf0}' <= c && c <= '\u{11bf9}')
        || ('\u{11c50}' <= c && c <= '\u{11c59}')
        || ('\u{11d50}' <= c && c <= '\u{11d59}')
        || ('\u{11da0}' <= c && c <= '\u{11da9}')
        || ('\u{11f50}' <= c && c <= '\u{11f59}')
        || ('\u{16130}' <= c && c <= '\u{16139}')
        || ('\u{16a60}' <= c && c <= '\u{16a69}')
        || ('\u{16ac0}' <= c && c <= '\u{16ac9}')
        || ('\u{16b50}' <= c && c <= '\u{16b59}')
        || ('\u{16d70}' <= c && c <= '\u{16d79}')
        || ('\u{1ccf0}' <= c && c <= '\u{1ccf9}')
        || ('\u{1d7ce}' <= c && c <= '\u{1d7ff}')
        || ('\u{1e140}' <= c && c <= '\u{1e149}')
        || ('\u{1e2f0}' <= c && c <= '\u{1e2f9}')
        || ('\u{1e4f0}' <= c && c <= '\u{1e4f9}')
        || ('\u{1e5f1}' <= c && c <= '\u{1e5fa}')
        || ('\u{1e950}' <= c && c <= '\u{1e959}')
        || ('\u{1fbf0}' <= c && c <= '\u{1fbf9}')
}

/// Whether every character of `s` is a decimal digit of some script.
pub open spec fn all_decimal_digits(s: Seq<char>) -> bool {
    forall|i: int| 0 <= i < s.len() ==> is_decimal_digit(#[trigger] s[i])
}

/// Whether `c` is a decimal digit of any script.
pub fn decimal_digit(c: char) -> (r: bool)
    ensures
        r == is_decimal_digit(c),
{
    ('\u{30}' <= c && c <= '\u{39}')
        || ('\u{660}' <= c && c <= '\u{669}')
        || ('\u{6f0}' <= c && c <= '\u{6f9}')
        || ('\u{7c0}' <= c && c <= '\u{7c9}')
        || ('\u{966}' <= c && c <= '\u{96f}')
        || ('\u{9e6}' <= c && c <= '\u{9ef}')
        || ('\u{a66}' <= c && c <= '\u{a6f}')
        || ('\u{ae6}' <= c && c <= '\u{aef}')
        || ('\u{b66}' <= c && c <= '\u{b6f}')
        || ('\u{be6}' <= c && c <= '\u{bef}')
        || ('\u{c66}' <= c && c <= '\u{c6f}')
        || ('\u{ce6}' <= c && c <= '\u{cef}')
        || ('\u{d66}' <= c && c <= '\u{d6f}')
        || ('\u{de6}' <= c && c <= '\u{def}')
        || ('\u{e50}' <= c && c <= '\u{e59}')
        || ('\u{ed0}' <= c && c <= '\u{ed9}')
        || ('\u{f20}' <= c && c <= '\u{f29}')
        || ('\u{1040}' <= c && c <= '\u{1049}')
        || ('\u{1090}' <= c && c <= '\u{1099}')
        || ('\u{17e0}' <= c && c <= '\u{17e9}')
        || ('\u{1810}' <= c && c <= '\u{1819}')
        || ('\u{1946}' <= c && c <= '\u{194f}')
        || ('\u{19d0}' <= c && c <= '\u{19d9}')
        || ('\u{1a80}' <= c && c <= '\u{1a89}')
        || ('\u{1a90}' <= c && c <= '\u{1a99}')
        || ('\u{1b50}' <= c && c <= '\u{1b59}')
        || ('\u{1bb0}' <= c && c <= '\u{1bb9}')
        || ('\u{1c40}' <= c && c <= '\u{1c49}')
        || ('\u{1c50}' <= c && c <= '\u{1c59}')
        || ('\u{a620}' <= c && c <= '\u{a629}')
        || ('\u{a8d0}' <= c && c <= '\u{a8d9}')
        || ('\u{a900}' <= c && c <= '\u{a909}')
        || ('\u{a9d0}' <= c && c <= '\u{a9d9}')
        || ('\u{a9f0}' <= c && c <= '\u{a9f9}')
        || ('\u{aa50}' <= c && c <= '\u{aa59}')
        || ('\u{abf0}' <= c && c <= '\u{abf9}')
        || ('\u{ff10}' <= c && c <= '\u{ff19}')
        || ('\u{104a0}' <= c && c <= '\u{104a9}')
        || ('\u{10d30}' <= c && c <= '\u{10d39}')
        || ('\u{10d40}' <= c && c <= '\u{10d49}')
        || ('\u{11066}' <= c && c <= '\u{1106f}')
        || ('\u{110f0}' <= c && c <= '\u{110f9}')
        || ('\u{11136}' <= c && c <= '\u{1113f}')
        || ('\u{111d0}' <= c && c <= '\u{111d9}')
        || ('\u{112f0}' <= c && c <= '\u{112f9}')
        || ('\u{11450}' <= c && c <= '\u{11459}')
        || ('\u{114d0}' <= c && c <= '\u{114d9}')
        || ('\u{11650}' <= c && c <= '\u{11659}')
        || ('\u{116c0}' <= c && c <= '\u{116c9}')
        || ('\u{116d0}' <= c && c <= '\u{116e3}')
        || ('\u{11730}' <= c && c <= '\u{11739}')
        || ('\u{118e0}' <= c && c <= '\u{118e9}')
        || ('\u{11950}' <= c && c <= '\u{11959}')
        || ('\u{11bf0}' <= c && c <= '\u{11bf9}')
        || ('\u{11c50}' <= c && c <= '\u{11c59}')
        || ('\u{11d50}' <= c && c <= '\u{11d59}')
        || ('\u{11da0}' <= c && c <= '\u{11da9}')
        || ('\u{11f50}' <= c && c <= '\u{11f59}')
        || ('\u{16130}' <= c && c <= '\u{16139}')
        || ('\u{16a60}' <= c && c <= '\u{16a69}')
        || ('\u{16ac0}' <= c && c <= '\u{16ac9}')
        || ('\u{16b50}' <= c && c <= '\u{16b59}')
        || ('\u{16d70}' <= c && c <= '\u{16d79}')
        || ('\u{1ccf0}' <= c && c <= '\u{1ccf9}')
        || ('\u{1d7ce}' <= c && c <= '\u{1d7ff}')
        || ('\u{1e140}' <= c && c <= '\u{1e149}')
        || ('\u{1e2f0}' <= c && c <= '\u{1e2f9}')
        || ('\u{1e4f0}' <= c && c <= '\u{1e4f9}')
        || ('\u{1e5f1}' <= c && c <= '\u{1e5fa}')
        || ('\u{1e950}' <= c && c <= '\u{1e959}')
        || ('\u{1fbf0}' <= c && c <= '\u{1fbf9}')
}

/// Whether `s` is `0`, one to four decimal digits, `-`, one to four decimal
/// digits, `-` and four decimal digits, with the dashes at `p` and `q`.
pub open spec fn phone_split(s: Seq<char>, p: int, q: int) -> bool {
    &&& 2 <= p <= 5
    &&& p + 2 <= q <= p + 5
    &&& s.len() == q + 5
    &&& s[0] == '0'
    &&& s[p] == '-'
    &&& s[q] == '-'
    &&& all_decimal_digits(s.subrange(1, p))
    &&& all_decimal_digits(s.subrange(p + 1, q))
    &&& all_decimal_digits(s.subrange(q + 1, s.len() as int))
}

/// Whether `s` is a phone number: `0`, one to four digits, `-`, one to four
/// digits, `-`, four digits.
pub open spec fn phone_number_ok(s: Seq<char>) -> bool {
    exists|p: int, q: int| phone_split(s, p, q)
}

/// Whether `s` is a postal code: three digits, `-`, four digits.
pub open spec fn postal_code_ok(s: Seq<char>) -> bool {
    &&& s.len() == 8
    &&& s[3] == '-'
    &&& all_decimal_digits(s.subrange(0, 3))
    &&& all_decimal_digits(s.subrange(4, 8))
}

/// What `validator::validate_email` decides of a text.
pub uninterp spec fn email_valid(s: Seq<char>) -> bool;

/// Relies on `validator::validate_email`: whether the text is an email
/// address; its source rejects at once a text without `@`.
#[verifier::external_body]
fn validate_email(s: &str) -> (r: bool)
    ensures
        r == email_valid(s@),
        !s@.contains('@') ==> !r,
{
    validator::validate_email(s)
}

/// Whether `c` is of the class `k`.
pub fn char_in_class(c: char, k: CharClass) -> (r: bool)
    ensures
        r == in_class(c, k),
{
    match k {
        CharClass::Alphabetic => ('a' <= c && c <= 'z') || ('A' <= c && c <= 'Z'),
        CharClass::Lowercase => 'a' <= c && c <= 'z',
        CharClass::Uppercase => 'A' <= c && c <= 'Z',
        CharClass::Digit => '0' <= c && c <= '9',
        CharClass::Sign => (' ' <= c && c <= '/') || (':' <= c && c <= '@') || ('[' <= c && c
            <= '`') || ('{' <= c && c <= '~'),
    }
}

/// Whether some character of `v` is of the class `k`.
pub fn any_of_class(v: &Vec<char>, k: CharClass) -> (r: bool)
    ensures
        r == has_class(v@, k),
{
    let mut i: usize = 0;
    while i < v.len()
        invariant
            i <= v@.len(),
            forall|j: int| 0 <= j < i ==> !in_class(#[trigger] v@[j], k),
        decreases v@.len() - i,
    {
        if char_in_class(v[i], k) {
            return true;
        }
        i = i + 1;
    }
    false
}

/// Whether every character of `v[lo..hi]` is a decimal digit of some script.
pub fn digits_between(v: &Vec<char>, lo: usize, hi: usize) -> (r: bool)
    requires
        lo <= hi <= v@.len(),
    ensures
        r == all_decimal_digits(v@.subrange(lo as int, hi as int)),
{
    let mut i = lo;
    while i < hi
        invariant
            lo <= i <= hi <= v@.len(),
            forall|j: int| lo <= j < i ==> is_decimal_digit(#[trigger] v@[j]),
        decreases hi - i,
    {
        if !decimal_digit(v[i]) {
            assert(v@.subrange(lo as int, hi as int)[i - lo] == v@[i as int]);
            return false;
        }
        i = i + 1;
    }
    assert forall|j: int| 0 <= j < hi - lo implies is_decimal_digit(
        #[trigger] v@.subrange(lo as int, hi as int)[j],
    ) by {
        assert(v@.subrange(lo as int, hi as int)[j] == v@[lo + j]);
    }
    true
}

/// Whether `v` is a phone number.
pub fn is_phone_number(v: &Vec<char>) -> (r: bool)
    ensures
        r == phone_number_ok(v@),
{
    let n = v.len();
    if n < 9 || n > 17 || v[0] != '0' {
        return false;
    }
    let q = n - 5;
    if v[q] != '-' || !digits_between(v, q + 1, n) {
        return false;
    }
    let mut p: usize = 2;
    while p <= 5
        invariant
            2 <= p <= 6,
            n == v@.len(),
            9 <= n <= 17,
            q == n - 5,
            v@[0] == '0',
            v@[q as int] == '-',
            all_decimal_digits(v@.subrange(q + 1, n as int)),
            forall|pp: int| 2 <= pp < p ==> !phone_split(v@, pp, q as int),
        decreases 6 - p,
    {
        if p + 2 <= q && q <= p + 5 && v[p] == '-' && digits_between(v, 1, p) && digits_between(
            v,
            p + 1,
            q,
        ) {
            assert(phone_split(v@, p as int, q as int));
            return true;
        }
        p = p + 1;
    }
    proof {
        assert forall|pp: int, qq: int| !phone_split(v@, pp, qq) by {
            if phone_split(v@, pp, qq) {
                assert(qq == q);
            }
        }
    }
    false
}

/// Whether `v` is a postal code.
pub fn is_postal_code(v: &Vec<char>) -> (r: bool)
    ensures
        r == postal_code_ok(v@),
{
    v.len() == 8 && v[3] == '-' && digits_between(v, 0, 3) && digits_between(v, 4, 8)
}

/// An account name of 2 to 20 characters.
#[derive(Debug)]
pub struct AccountName {
    value: String,
}

impl View for AccountName {
    type V = Seq<char>;

    closed spec fn view(&self) -> Seq<char> {
        self.value@
    }
}

impl Clone for AccountName {
    fn clone(&self) -> (r: Self)
        ensures
            r@ == self@,
    {
        proof {
            use_type_invariant(self);
        }
        AccountName { value: self.value.clone() }
    }
}

impl AccountName {
    #[verifier::type_invariant]
    spec fn inv(&self) -> bool {
        ACCOUNT_NAME_MIN_LENGTH <= self.value@.len() <= ACCOUNT_NAME_MAX_LENGTH
    }

    /// Accepts names of 2 to 20 characters.
    pub fn new(value: &str) -> (r: Result<AccountName, ValidationError>)
        ensures
            r is Ok <==> ACCOUNT_NAME_MIN_LENGTH <= value@.len() <= ACCOUNT_NAME_MAX_LENGTH,
            r matches Ok(n) ==> n@ == value@,
            r matches Err(e) ==> e == ValidationError::AccountNameLength,
    {
        let len = value.unicode_len();
        if len < ACCOUNT_NAME_MIN_LENGTH || len > ACCOUNT_NAME_MAX_LENGTH {
            return Err(ValidationError::AccountNameLength);
        }
        Ok(AccountName { value: value.to_owned() })
    }

    /// The name.
    pub fn value(&self) -> (r: String)
        ensures
            r@ == self@,
            ACCOUNT_NAME_MIN_LENGTH <= r@.len() <= ACCOUNT_NAME_MAX_LENGTH,
    {
        proof {
            use_type_invariant(self);
        }
        self.value.clone()
    }
}

/// A plaintext password that passed the password rules.
#[derive(Debug)]
pub struct RawPassword {
    value: String,
}

impl View for RawPassword {
    type V = Seq<char>;

    closed spec fn view(&self) -> Seq<char> {
        self.value@
    }
}

impl Clone for RawPassword {
    fn clone(&self) -> (r: Self)
        ensures
            r@ == self@,
    {
        proof {
            use_type_invariant(self);
        }
        RawPassword { value: self.value.clone() }
    }
}

impl RawPassword {
    #[verifier::type_invariant]
    spec fn inv(&self) -> bool {
        raw_password_check(self.value@) is Ok
    }

    /// Accepts a password of at least 8 characters holding a lowercase and an
    /// uppercase ASCII letter, an ASCII digit and a sign.
    pub fn new(value: &str) -> (r: Result<RawPassword, ValidationError>)
        ensures
            match r {
                Ok(p) => raw_password_check(value@) is Ok && p@ == value@,
                Err(e) => raw_password_check(value@) == Err::<(), ValidationError>(e),
            },
    {
        let v = chars_of(value);
        if v.len() < RAW_PASSWORD_MIN_LENGTH {
            return Err(ValidationError::PasswordTooShort);
        }
        if !any_of_class(&v, CharClass::Alphabetic) {
            return Err(ValidationError::PasswordWithoutAlphabet);
        }
        if !any_of_class(&v, CharClass::Lowercase) {
            return Err(ValidationError::PasswordWithoutLowercase);
        }
        if !any_of_class(&v, CharClass::Uppercase) {
            return Err(ValidationError::PasswordWithoutUppercase);
        }
        if !any_of_class(&v, CharClass::Digit) {
            return Err(ValidationError::PasswordWithoutDigit);
        }
        if !any_of_class(&v, CharClass::Sign) {
            return Err(ValidationError::PasswordWithoutSign);
        }
        Ok(RawPassword { value: value.to_owned() })
    }

    /// The password.
    pub fn value(&self) -> (r: String)
        ensures
            r@ == self@,
            raw_password_check(r@) is Ok,
    {
        proof {
            use_type_invariant(self);
        }
        self.value.clone()
    }
}

/// The stored text of a hashed password.
#[derive(Clone, Debug)]
pub struct HashedPassword {
    value: String,
}

impl View for HashedPassword {
    type V = Seq<char>;

    closed spec fn view(&self) -> Seq<char> {
        self.value@
    }
}

impl HashedPassword {
    /// Hashes a new password with a fresh salt and the configured parameters.
    pub fn new<P: SaultProvider>(provider: &P, config: &PasswordConfig, raw: RawPassword) -> (r:
        HashedPassword)
        ensures
            exists|rec: RecordView| fresh_record(*config, raw@, rec) && r@ == encode_spec(rec),
    {
        let text = raw.value();
        HashedPassword { value: hash_password(provider, config, text.as_str()) }
    }

    /// Wraps stored text as read back from storage, unchecked.
    pub fn from_repository(value: &str) -> (r: HashedPassword)
        ensures
            r@ == value@,
    {
        HashedPassword { value: value.to_owned() }
    }

    /// The stored text.
    pub fn value(&self) -> (r: String)
        ensures
            r@ == self@,
    {
        self.value.clone()
    }
}

/// An email address.
#[derive(Debug)]
pub struct EmailAddress {
    value: String,
}

impl View for EmailAddress {
    type V = Seq<char>;

    closed spec fn view(&self) -> Seq<char> {
        self.value@
    }
}

impl Clone for EmailAddress {
    fn clone(&self) -> (r: Self)
        ensures
            r@ == self@,
    {
        proof {
            use_type_invariant(self);
        }
        EmailAddress { value: self.value.clone() }
    }
}

impl EmailAddress {
    #[verifier::type_invariant]
    spec fn inv(&self) -> bool {
        email_valid(self.value@)
    }

    /// Accepts what the email validator accepts.
    pub fn new(value: &str) -> (r: Result<EmailAddress, ValidationError>)
        ensures
            r is Ok <==> email_valid(value@),
            r matches Ok(a) ==> a@ == value@,
            r matches Err(e) ==> e == ValidationError::InvalidEmailAddress,
    {
        if !validate_email(value) {
            return Err(ValidationError::InvalidEmailAddress);
        }
        Ok(EmailAddress { value: value.to_owned() })
    }

    /// The address.
    pub fn value(&self) -> (r: String)
        ensures
            r@ == self@,
            email_valid(r@),
    {
        proof {
            use_type_invariant(self);
        }
        self.value.clone()
    }
}

/// A phone number such as `012-345-6789`.
#[derive(Debug)]
pub struct PhoneNumber {
    value: String,
}

impl View for PhoneNumber {
    type V = Seq<char>;

    closed spec fn view(&self) -> Seq<char> {
        self.value@
    }
}

impl Clone for PhoneNumber {
    fn clone(&self) -> (r: Self)
        ensures
            r@ == self@,
    {
        proof {
            use_type_invariant(self);
        }
        PhoneNumber { value: self.value.clone() }
    }
}

impl PhoneNumber {
    #[verifier::type_invariant]
    spec fn inv(&self) -> bool {
        phone_number_ok(self.value@)
    }

    /// Accepts `0`, one to four digits, `-`, one to four digits, `-` and
    /// four digits.
    pub fn new(value: &str) -> (r: Result<PhoneNumber, ValidationError>)
        ensures
            r is Ok <==> phone_number_ok(value@),
            r matches Ok(p) ==> p@ == value@,
            r matches Err(e) ==> e == ValidationError::InvalidPhoneNumber,
    {
        let v = chars_of(value);
        if !is_phone_number(&v) {
            return Err(ValidationError::InvalidPhoneNumber);
        }
        Ok(PhoneNumber { value: value.to_owned() })
    }

    /// The number.
    pub fn value(&self) -> (r: String)
        ensures
            r@ == self@,
            phone_number_ok(r@),
    {
        proof {
            use_type_invariant(self);
        }
        self.value.clone()
    }

}

/// A postal code such as `500-8570`.
#[derive(Debug)]
pub struct PostalCode {
    value: String,
}

impl View for PostalCode {
    type V = Seq<char>;

    closed spec fn view(&self) -> Seq<char> {
        self.value@
    }
}

impl Clone for PostalCode {
    fn clone(&self) -> (r: Self)
        ensures
            r@ == self@,
    {
        proof {
            use_type_invariant(self);
        }
        PostalCode { value: self.value.clone() }
    }
}

impl PostalCode {
    #[verifier::type_invariant]
    spec fn inv(&self) -> bool {
        postal_code_ok(self.value@)
    }

    /// Accepts three digits, `-` and four digits.
    pub fn new(value: &str) -> (r: Result<PostalCode, ValidationError>)
        ensures
            r is Ok <==> postal_code_ok(value@),
            r matches Ok(p) ==> p@ == value@,
            r matches Err(e) ==> e == ValidationError::InvalidPostalCode,
    {
        let v = chars_of(value);
        if !is_postal_code(&v) {
            return Err(ValidationError::InvalidPostalCode);
        }
        Ok(PostalCode { value: value.to_owned() })
    }

    /// The code.
    pub fn value(&self) -> (r: String)
        ensures
            r@ == self@,
            postal_code_ok(r@),
    {
        proof {
            use_type_invariant(self);
        }
        self.value.clone()
    }
}

/// A prefecture: its code and its name.
#[derive(Clone, Debug)]
pub struct Prefecture {
    code: u8,
    name: String,
}

impl View for Prefecture {
    type V = (u8, Seq<char>);

    closed spec fn view(&self) -> (u8, Seq<char>) {
        (self.code, self.name@)
    }
}

impl Prefecture {
    /// A prefecture with the given code and name.
    pub fn new(code: u8, name: &str) -> (r: Prefecture)
        ensures
            r@ == (code, name@),
    {
        Prefecture { code, name: name.to_owned() }
    }

    /// The prefecture code.
    pub fn code(&self) -> (r: u8)
        ensures
            r == self@.0,
    {
        self.code
    }

    /// The prefecture name.
    pub fn name(&self) -> (r: String)
        ensures
            r@ == self@.1,
    {
        self.name.clone()
    }
}

/// A prefecture as the store keeps it.
#[derive(Clone, Debug)]
pub struct PrefectureRecord {
    pub code: i16,
    pub name: String,
}

impl From<PrefectureRecord> for Prefecture {
    fn from(m: PrefectureRecord) -> (r: Prefecture)
        ensures
            r@ == (m.code as u8, m.name@),
    {
        Prefecture::new(m.code as u8, m.name.as_str())
    }
}

impl vstd::std_specs::convert::FromSpecImpl<PrefectureRecord> for Prefecture {
    open spec fn obeys_from_spec() -> bool {
        false
    }

    open spec fn from_spec(m: PrefectureRecord) -> Prefecture {
        arbitrary()
    }
}

/// The part of an address below the prefecture: 2 to 100 characters.
#[derive(Debug)]
pub struct AddressDetails {
    value: String,
}

impl View for AddressDetails {
    type V = Seq<char>;

    closed spec fn view(&self) -> Seq<char> {
        self.value@
    }
}

impl Clone for AddressDetails {
    fn clone(&self) -> (r: Self)
        ensures
            r@ == self@,
    {
        proof {
            use_type_invariant(self);
        }
        AddressDetails { value: self.value.clone() }
    }
}

impl AddressDetails {
    #[verifier::type_invariant]
    spec fn inv(&self) -> bool {
        ADDRESS_DETAILS_MIN_LENGTH <= self.value@.len() <= ADDRESS_DETAILS_MAX_LENGTH
    }

    /// Accepts 2 to 100 characters.
    pub fn new(value: &str) -> (r: Result<AddressDetails, ValidationError>)
        ensures
            r is Ok <==> ADDRESS_DETAILS_MIN_LENGTH <= value@.len() <= ADDRESS_DETAILS_MAX_LENGTH,
            r matches Ok(d) ==> d@ == value@,
            r matches Err(e) ==> e == ValidationError::AddressDetailsLength,
    {
        let len = value.unicode_len();
        if len < ADDRESS_DETAILS_MIN_LENGTH || len > ADDRESS_DETAILS_MAX_LENGTH {
            return Err(ValidationError::AddressDetailsLength);
        }
        Ok(AddressDetails { value: value.to_owned() })
    }

    /// The details.
    pub fn value(&self) -> (r: String)
        ensures
            r@ == self@,
    {
        self.value.clone()
    }
}

/// An address: a prefecture and the details below it.
#[derive(Clone, Debug)]
pub struct Address {
    prefecture: Prefecture,
    details: AddressDetails,
}

impl View for Address {
    type V = (u8, Seq<char>, Seq<char>);

    closed spec fn view(&self) -> (u8, Seq<char>, Seq<char>) {
        (self.prefecture@.0, self.prefecture@.1, self.details@)
    }
}

impl Address {
    /// An address in the given prefecture.
    pub fn new(prefecture: Prefecture, details: AddressDetails) -> (r: Address)
        ensures
            r@ == (prefecture@.0, prefecture@.1, details@),
    {
        Address { prefecture, details }
    }

    /// The prefecture.
    pub fn prefecture(&self) -> (r: Prefecture)
        ensures
            r@ == (self@.0, self@.1),
    {
        Prefecture { code: self.prefecture.code, name: self.prefecture.name.clone() }
    }

    /// The details below the prefecture.
    pub fn details(&self) -> (r: AddressDetails)
        ensures
            r@ == self@.2,
    {
        self.details.clone()
    }
}

/// The view of an optional phone number.
pub open spec fn phone_view(p: Option<PhoneNumber>) -> Option<Seq<char>> {
    match p {
        Some(n) => Some(n@),
        None => None,
    }
}

/// Reads an optional phone number: nothing stays nothing, text must be a
/// phone number.
pub fn optional_phone_number(value: Option<&str>) -> (r: Result<
    Option<PhoneNumber>,
    ValidationError,
>)
    ensures
        match value {
            None => r matches Ok(None),
            Some(s) => match r {
                Ok(p) => phone_number_ok(s@) && phone_view(p) == Some(s@),
                Err(e) => !phone_number_ok(s@) && e == ValidationError::InvalidPhoneNumber,
            },
        },
{
    match value {
        Some(s) => {
            let n = PhoneNumber::new(s)?;
            Ok(Some(n))
        },
        None => Ok(None),
    }
}

/// The text of an optional phone number.
pub fn optional_phone_number_string(value: Option<PhoneNumber>) -> (r: Option<String>)
    ensures
        match value {
            None => r is None,
            Some(n) => r matches Some(s) && s@ == n@,
        },
{
    match value {
        Some(n) => Some(n.value()),
        None => None,
    }
}

/// A fixed and a mobile phone number, at least one of them present.
#[derive(Debug)]
pub struct FixedMobileNumbers {
    fixed: Option<PhoneNumber>,
    mobile: Option<PhoneNumber>,
}

impl View for FixedMobileNumbers {
    type V = (Option<Seq<char>>, Option<Seq<char>>);

    closed spec fn view(&self) -> (Option<Seq<char>>, Option<Seq<char>>) {
        (phone_view(self.fixed), phone_view(self.mobile))
    }
}

impl Clone for FixedMobileNumbers {
    fn clone(&self) -> (r: Self)
        ensures
            r@ == self@,
    {
        proof {
            use_type_invariant(self);
        }
        FixedMobileNumbers { fixed: self.fixed(), mobile: self.mobile() }
    }
}

impl FixedMobileNumbers {
    #[verifier::type_invariant]
    spec fn inv(&self) -> bool {
        self.fixed is Some || self.mobile is Some
    }

    /// Accepts any pair but two missing numbers.
    pub fn new(fixed: Option<PhoneNumber>, mobile: Option<PhoneNumber>) -> (r: Result<
        FixedMobileNumbers,
        ValidationError,
    >)
        ensures
            r is Ok <==> (fixed is Some || mobile is Some),
            r matches Ok(n) ==> n@ == (phone_view(fixed), phone_view(mobile)),
            r matches Err(e) ==> e == ValidationError::NoPhoneNumber,
    {
        if fixed.is_none() && mobile.is_none() {
            return Err(ValidationError::NoPhoneNumber);
        }
        Ok(FixedMobileNumbers { fixed, mobile })
    }

    /// The fixed number.
    pub fn fixed(&self) -> (r: Option<PhoneNumber>)
        ensures
            phone_view(r) == self@.0,
    {
        match &self.fixed {
            Some(n) => Some(n.clone()),
            None => None,
        }
    }

    /// The mobile number.
    pub fn mobile(&self) -> (r: Option<PhoneNumber>)
        ensures
            phone_view(r) == self@.1,
    {
        match &self.mobile {
            Some(n) => Some(n.clone()),
            None => None,
        }
    }
}

/// A signed token as text, never empty.
#[derive(Debug)]
pub struct JwtToken {
    value: String,
}

impl View for JwtToken {
    type V = Seq<char>;

    closed spec fn view(&self) -> Seq<char> {
        self.value@
    }
}

impl Clone for JwtToken {
    fn clone(&self) -> (r: Self)
        ensures
            r@ == self@,
    {
        proof {
            use_type_invariant(self);
        }
        JwtToken { value: self.value.clone() }
    }
}

impl JwtToken {
    #[verifier::type_invariant]
    spec fn inv(&self) -> bool {
        self.value@.len() > 0
    }

    /// Accepts any text but the empty one.
    pub fn new(value: &str) -> (r: Result<JwtToken, ValidationError>)
        ensures
            r is Ok <==> value@.len() > 0,
            r matches Ok(t) ==> t@ == value@,
            r matches Err(e) ==> e == ValidationError::EmptyToken,
    {
        if value.is_empty() {
            return Err(ValidationError::EmptyToken);
        }
        Ok(JwtToken { value: value.to_owned() })
    }

    /// The token text.
    pub fn value(&self) -> (r: String)
        ensures
            r@ == self@,
            r@.len() > 0,
    {
        proof {
            use_type_invariant(self);
        }
        self.value.clone()
    }
}

} // verus!
