use crate::text::push_char;
use vstd::prelude::*;

verus! {

/// How many characters a salt may be drawn from.
pub const SALT_ALPHABET_LEN: usize = 91;

/// The salt alphabet: printable ASCII without space, `$` (the record
/// delimiter), `+` and `,`.
pub open spec fn is_salt_char_spec(c: char) -> bool {
    '!' <= c && c <= '~' && c != '$' && c != '+' && c != ','
}

/// Whether every character of `s` is in the salt alphabet.
pub open spec fn is_salt_spec(s: Seq<char>) -> bool {
    forall|i: int| 0 <= i < s.len() ==> is_salt_char_spec(#[trigger] s[i])
}

/// Whether `c` is in the salt alphabet.
pub fn is_salt_char(c: char) -> (r: bool)
    ensures
        r == is_salt_char_spec(c),
{
    '!' <= c && c <= '~' && c != '$' && c != '+' && c != ','
}

/// The `k`-th character of the salt alphabet, in ASCII order.
pub fn salt_char_at(k: usize) -> (c: char)
    requires
        k < SALT_ALPHABET_LEN,
    ensures
        is_salt_char_spec(c),
        c as int == if k < 3 {
            0x21 + k
        } else if k < 9 {
            0x22 + k
        } else {
            0x24 + k
        },
{
    let code: u8 = if k < 3 {
        0x21 + k as u8
    } else if k < 9 {
        0x22 + k as u8
    } else {
        0x24 + k as u8
    };
    code as char
}

/// Relies on `fastrand::usize`: a number drawn from `0..n`, which the crate
/// documents to panic only when the range is empty.
#[verifier::external_body]
fn random_below(n: usize) -> (r: usize)
    requires
        n > 0,
    ensures
        r < n,
{
    fastrand::usize(0..n)
}

/// A source of salts.
pub trait SaultProvider {
    /// A salt of `len` characters from the salt alphabet.
    fn generate(&self, len: usize) -> (r: String)
        ensures
            r@.len() == len,
            is_salt_spec(r@),
    ;
}

/// Draws each salt character independently and uniformly from the salt
/// alphabet with a fast non-cryptographic generator.
pub struct SaultProviderImpl;

impl SaultProvider for SaultProviderImpl {
    fn generate(&self, len: usize) -> (r: String) {
        let mut result = String::new();
        let mut i: usize = 0;
        while i < len
            invariant
                i <= len,
                result@.len() == i,
                is_salt_spec(result@),
            decreases len - i,
        {
            let c = salt_char_at(random_below(SALT_ALPHABET_LEN));
            push_char(&mut result, c);
            i = i + 1;
        }
        result
    }
}

} // verus!
