//! File identifiers: five ASCII letters or digits, drawn at random for new files.
use vstd::prelude::*;
use vstd::string::StrSliceExecFns;
use rand::distr::Alphanumeric;
use rand::rngs::{StdRng, SysRng};
use rand::{RngExt, SeedableRng};

verus! {

/// The number of characters in a file id.
pub const ID_LENGTH: usize = 5;

/// `c` is an ASCII letter or digit.
pub open spec fn is_ascii_alphanumeric(c: char) -> bool {
    ||| ('0' <= c && c <= '9')
    ||| ('A' <= c && c <= 'Z')
    ||| ('a' <= c && c <= 'z')
}

/// A well-formed file id: exactly five ASCII letters or digits.
pub open spec fn valid_id(s: Seq<char>) -> bool {
    &&& s.len() == ID_LENGTH
    &&& forall|i: int| 0 <= i < s.len() ==> is_ascii_alphanumeric(#[trigger] s[i])
}

/// A well-formed id is exactly five characters, each a digit `0`-`9`, an
/// uppercase letter `A`-`Z` or a lowercase letter `a`-`z`.
pub proof fn law_well_formed_ids(s: Seq<char>)
    ensures
        valid_id(s) <==> (s.len() == 5 && forall|i: int|
            0 <= i < s.len() ==> ('0' <= #[trigger] s[i] && s[i] <= '9') || ('A' <= s[i] && s[i] <= 'Z')
                || ('a' <= s[i] && s[i] <= 'z')),
{
}

/// Whether `c` is an ASCII letter or digit.
fn ascii_alphanumeric(c: char) -> (r: bool)
    ensures
        r == is_ascii_alphanumeric(c),
{
    ('0' <= c && c <= '9') || ('A' <= c && c <= 'Z') || ('a' <= c && c <= 'z')
}

/// Whether `id` names a file that could exist: five ASCII letters or digits.
pub fn is_valid_id(id: &str) -> (ok: bool)
    ensures
        ok == valid_id(id@),
{
    if id.unicode_len() != ID_LENGTH {
        return false;
    }
    let mut i: usize = 0;
    while i < ID_LENGTH
        invariant
            id@.len() == ID_LENGTH,
            i <= ID_LENGTH,
            forall|j: int| 0 <= j < i ==> is_ascii_alphanumeric(#[trigger] id@[j]),
        decreases ID_LENGTH - i,
    {
        if !ascii_alphanumeric(id.get_char(i)) {
            return false;
        }
        i = i + 1;
    }
    true
}

/// `len` characters drawn from `rand`'s `Alphanumeric` distribution, collected
/// into a string, with a generator (`StdRng`) seeded through the fallible
/// `SeedableRng::try_from_rng` from the operating system's source (`SysRng`).
/// `None` when the operating system cannot supply the seed; otherwise the
/// source samples each character from `A`-`Z`, `a`-`z` and `0`-`9`, and which
/// ones come out is left to chance.
#[verifier::external_body]
fn random_alphanumeric(len: usize) -> (s: Option<String>)
    ensures
        s matches Some(s) ==> s@.len() == len
            && forall|i: int| 0 <= i < s@.len() ==> is_ascii_alphanumeric(#[trigger] s@[i]),
{
    match StdRng::try_from_rng(&mut SysRng) {
        Ok(rng) => Some(rng.sample_iter(Alphanumeric).take(len).map(char::from).collect()),
        Err(_) => None,
    }
}

/// A fresh random file id, or `None` when no randomness can be had. Every id
/// it gives is well formed.
pub fn generate_id() -> (id: Option<String>)
    ensures
        id matches Some(id) ==> valid_id(id@),
{
    random_alphanumeric(ID_LENGTH)
}

} // verus!
