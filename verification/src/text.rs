//! ASCII case folding over strings, used for case-insensitive section
//! lookup.

use vstd::prelude::*;
use vstd::string::StrSliceExecFns;

verus! {

/// Folds one ASCII uppercase letter to lowercase; every other
/// character is unchanged.
pub open spec fn lower_char(c: char) -> char {
    if 'A' <= c && c <= 'Z' {
        ((c as u8) + 32) as char
    } else {
        c
    }
}

/// Folds every ASCII uppercase letter of a string to lowercase.
pub open spec fn lower_chars(s: Seq<char>) -> Seq<char> {
    s.map_values(|c: char| lower_char(c))
}

/// Executable ASCII case folding of a single character.
pub fn fold_char(c: char) -> (r: char)
    ensures
        r == lower_char(c),
{
    if 'A' <= c && c <= 'Z' {
        let b: u8 = c as u8;
        (b + 32) as char
    } else {
        c
    }
}

/// True exactly when `input`, folded to ASCII lowercase, equals `key`.
pub fn matches_key_ci(input: &str, key: &str) -> (r: bool)
    ensures
        r == (lower_chars(input@) == key@),
{
    let n = input.unicode_len();
    let m = key.unicode_len();
    if n != m {
        proof {
            assert(lower_chars(input@).len() == input@.len());
        }
        return false;
    }
    let mut i: usize = 0;
    while i < n
        invariant
            n == input@.len(),
            m == key@.len(),
            n == m,
            i <= n,
            forall|j: int| 0 <= j < i ==> lower_chars(input@)[j] == key@[j],
        decreases n - i,
    {
        let c = input.get_char(i);
        let lc = fold_char(c);
        let kc = key.get_char(i);
        if lc != kc {
            proof {
                assert(lower_chars(input@)[i as int] != key@[i as int]);
            }
            return false;
        }
        i += 1;
    }
    proof {
        assert(lower_chars(input@) =~= key@);
    }
    true
}

} // verus!
