//! Case-insensitive, exact comparison of process names.
//!
//! A process name matches a target variant exactly when the two strings are
//! equal after folding ASCII upper-case letters to lower case.  Folding is
//! restricted to ASCII on purpose: process executable names are ASCII in
//! practice, and an exact, fully stated fold keeps the matching contract
//! free of any unspecified locale behaviour.

use vstd::prelude::*;

verus! {

/// Code point of a character after folding ASCII upper case to lower case.
pub open spec fn fold_char(c: char) -> u32 {
    if 65 <= c as u32 && c as u32 <= 90 {
        (c as u32 + 32) as u32
    } else {
        c as u32
    }
}

/// A name folded character by character; two names are case-insensitively
/// equal exactly when their folds are equal.
pub open spec fn fold_name(s: Seq<char>) -> Seq<u32> {
    s.map(|i: int, c: char| fold_char(c))
}

/// Whether `name` equals some element of `variants` up to ASCII case.
pub open spec fn name_matches(name: Seq<char>, variants: Seq<Seq<char>>) -> bool {
    exists|i: int| 0 <= i < variants.len() && fold_name(name) == fold_name(variants[i])
}

/// Case-insensitive equality of two characters.
fn fold_char_eq(a: char, b: char) -> (r: bool)
    ensures
        r == (fold_char(a) == fold_char(b)),
{
    let av: u32 = a as u32;
    let bv: u32 = b as u32;
    let fa: u32 = if 65 <= av && av <= 90 { av + 32 } else { av };
    let fb: u32 = if 65 <= bv && bv <= 90 { bv + 32 } else { bv };
    fa == fb
}

/// Case-insensitive, exact equality of two names: true exactly when the
/// folded character sequences coincide, so `CURSOR` equals `cursor` while
/// `cursorhelper` never equals `cursor`.
pub fn names_equal_folded(a: &str, b: &str) -> (r: bool)
    ensures
        r == (fold_name(a@) == fold_name(b@)),
{
    let n = a.unicode_len();
    if n != b.unicode_len() {
        proof {
            assert(fold_name(a@).len() != fold_name(b@).len());
        }
        return false;
    }
    let mut i: usize = 0;
    while i < n
        invariant
            n == a@.len(),
            n == b@.len(),
            i <= n,
            forall|j: int| 0 <= j < i ==> fold_char(a@[j]) == fold_char(b@[j]),
        decreases n - i,
    {
        if !fold_char_eq(a.get_char(i), b.get_char(i)) {
            proof {
                assert(fold_name(a@)[i as int] != fold_name(b@)[i as int]);
            }
            return false;
        }
        i = i + 1;
    }
    proof {
        assert(fold_name(a@) =~= fold_name(b@));
    }
    true
}

/// Whether `name` matches any of the target `variants`, case-insensitively
/// and exactly.
pub fn matches_any_variant(name: &str, variants: &Vec<String>) -> (r: bool)
    ensures
        r == name_matches(name@, variants.deep_view()),
{
    let mut i: usize = 0;
    while i < variants.len()
        invariant
            i <= variants@.len(),
            forall|j: int| 0 <= j < i ==> fold_name(name@) != fold_name(
                #[trigger] variants.deep_view()[j],
            ),
        decreases variants@.len() - i,
    {
        if names_equal_folded(name, variants[i].as_str()) {
            proof {
                assert(fold_name(name@) == fold_name(variants.deep_view()[i as int]));
            }
            return true;
        }
        i = i + 1;
    }
    false
}

} // verus!
