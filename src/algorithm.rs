use vstd::prelude::*;
use vstd::string::*;

verus! {

/// The closed set of digest functions a password may be hashed with.
#[derive(Clone, Copy, Debug, PartialEq, Eq, Structural)]
pub enum PasswordHashFunc {
    SHA224,
    SHA256,
    SHA384,
    SHA512,
    SHA512_224,
    SHA512_256,
}

/// The canonical name of each digest function, as written in configuration
/// and in stored password records.
pub open spec fn name_of(f: PasswordHashFunc) -> Seq<char> {
    match f {
        PasswordHashFunc::SHA224 => seq!['S', 'H', 'A', '-', '2', '2', '4'],
        PasswordHashFunc::SHA256 => seq!['S', 'H', 'A', '-', '2', '5', '6'],
        PasswordHashFunc::SHA384 => seq!['S', 'H', 'A', '-', '3', '8', '4'],
        PasswordHashFunc::SHA512 => seq!['S', 'H', 'A', '-', '5', '1', '2'],
        PasswordHashFunc::SHA512_224 => seq!['S', 'H', 'A', '-', '5', '1', '2', '/', '2', '2', '4'],
        PasswordHashFunc::SHA512_256 => seq!['S', 'H', 'A', '-', '5', '1', '2', '/', '2', '5', '6'],
    }
}

/// The digest function whose canonical name is `s`, if there is one.
pub open spec fn func_named(s: Seq<char>) -> Option<PasswordHashFunc> {
    if s == name_of(PasswordHashFunc::SHA224) {
        Some(PasswordHashFunc::SHA224)
    } else if s == name_of(PasswordHashFunc::SHA256) {
        Some(PasswordHashFunc::SHA256)
    } else if s == name_of(PasswordHashFunc::SHA384) {
        Some(PasswordHashFunc::SHA384)
    } else if s == name_of(PasswordHashFunc::SHA512) {
        Some(PasswordHashFunc::SHA512)
    } else if s == name_of(PasswordHashFunc::SHA512_224) {
        Some(PasswordHashFunc::SHA512_224)
    } else if s == name_of(PasswordHashFunc::SHA512_256) {
        Some(PasswordHashFunc::SHA512_256)
    } else {
        None
    }
}

/// Names never hold the record delimiter.
pub proof fn lemma_name_has_no_delimiter(f: PasswordHashFunc)
    ensures
        forall|i: int| 0 <= i < name_of(f).len() ==> name_of(f)[i] != '$',
{
}

/// Parsing the name of a digest function gives that function back.
pub proof fn lemma_name_round_trip(f: PasswordHashFunc)
    ensures
        func_named(name_of(f)) == Some(f),
{
    assert(name_of(PasswordHashFunc::SHA224) != name_of(PasswordHashFunc::SHA256)
        && name_of(PasswordHashFunc::SHA224)[6] != name_of(PasswordHashFunc::SHA256)[6]);
    assert(name_of(PasswordHashFunc::SHA224).len() != name_of(PasswordHashFunc::SHA512_224).len());
    assert(name_of(PasswordHashFunc::SHA256)[4] != name_of(PasswordHashFunc::SHA384)[4]);
    assert(name_of(PasswordHashFunc::SHA224)[4] != name_of(PasswordHashFunc::SHA384)[4]);
    assert(name_of(PasswordHashFunc::SHA224)[4] != name_of(PasswordHashFunc::SHA512)[4]);
    assert(name_of(PasswordHashFunc::SHA256)[4] != name_of(PasswordHashFunc::SHA512)[4]);
    assert(name_of(PasswordHashFunc::SHA384)[4] != name_of(PasswordHashFunc::SHA512)[4]);
    assert(name_of(PasswordHashFunc::SHA512_224)[9] != name_of(PasswordHashFunc::SHA512_256)[9]);
    assert(name_of(PasswordHashFunc::SHA224).len() != name_of(PasswordHashFunc::SHA512_256).len());
    assert(name_of(PasswordHashFunc::SHA256).len() != name_of(PasswordHashFunc::SHA512_224).len());
    assert(name_of(PasswordHashFunc::SHA256).len() != name_of(PasswordHashFunc::SHA512_256).len());
    assert(name_of(PasswordHashFunc::SHA384).len() != name_of(PasswordHashFunc::SHA512_224).len());
    assert(name_of(PasswordHashFunc::SHA384).len() != name_of(PasswordHashFunc::SHA512_256).len());
    assert(name_of(PasswordHashFunc::SHA512).len() != name_of(PasswordHashFunc::SHA512_224).len());
    assert(name_of(PasswordHashFunc::SHA512).len() != name_of(PasswordHashFunc::SHA512_256).len());
}

impl PasswordHashFunc {
    /// The canonical name of this digest function.
    pub fn name(&self) -> (r: String)
        ensures
            r@ == name_of(*self),
    {
        match self {
            PasswordHashFunc::SHA224 => {
                proof { reveal_strlit("SHA-224"); }
                String::from_str("SHA-224")
            },
            PasswordHashFunc::SHA256 => {
                proof { reveal_strlit("SHA-256"); }
                String::from_str("SHA-256")
            },
            PasswordHashFunc::SHA384 => {
                proof { reveal_strlit("SHA-384"); }
                String::from_str("SHA-384")
            },
            PasswordHashFunc::SHA512 => {
                proof { reveal_strlit("SHA-512"); }
                String::from_str("SHA-512")
            },
            PasswordHashFunc::SHA512_224 => {
                proof { reveal_strlit("SHA-512/224"); }
                String::from_str("SHA-512/224")
            },
            PasswordHashFunc::SHA512_256 => {
                proof { reveal_strlit("SHA-512/256"); }
                String::from_str("SHA-512/256")
            },
        }
    }

    /// The digest function named `s`; `None` for any other text.
    pub fn from_name(s: &str) -> (r: Option<PasswordHashFunc>)
        ensures
            r == func_named(s@),
    {
        let all = [
            PasswordHashFunc::SHA224,
            PasswordHashFunc::SHA256,
            PasswordHashFunc::SHA384,
            PasswordHashFunc::SHA512,
            PasswordHashFunc::SHA512_224,
            PasswordHashFunc::SHA512_256,
        ];
        let text = s.to_owned();
        let mut i: usize = 0;
        while i < 6
            invariant
                0 <= i <= 6,
                text@ == s@,
                all@ == seq![
                    PasswordHashFunc::SHA224,
                    PasswordHashFunc::SHA256,
                    PasswordHashFunc::SHA384,
                    PasswordHashFunc::SHA512,
                    PasswordHashFunc::SHA512_224,
                    PasswordHashFunc::SHA512_256,
                ],
                forall|j: int| 0 <= j < i ==> s@ != name_of(#[trigger] all@[j]),
            decreases 6 - i,
        {
            let f = all[i];
            if f.name() == text {
                proof {
                    lemma_name_round_trip(f);
                }
                return Some(f);
            }
            i = i + 1;
        }
        None
    }
}

} // verus!
