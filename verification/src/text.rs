//! Conversions between `String`/`&str` and character vectors, so that the
//! character-level logic can run over plain values.

use vstd::prelude::*;

verus! {

/// The characters of a string, in order.
pub fn chars_vec(s: &str) -> (v: Vec<char>)
    ensures
        v@ == s@,
{
    let mut v: Vec<char> = Vec::new();
    for c in it: s.chars()
        invariant
            it.seq() == s@,
            v@ == it.seq().subrange(0, it.index() as int),
    {
        let ghost prev = v@;
        v.push(c);
        proof {
            assert(prev.push(c) =~= it.seq().subrange(0, it.index() as int + 1));
        }
    }
    proof {
        assert(v@ =~= s@);
    }
    v
}

/// Collect characters back into a `String`.
/// Relies on `String`'s `FromIterator`: collecting yields exactly the
/// iterated characters, in order.
#[verifier::external_body]
pub(crate) fn string_from_chars(v: &Vec<char>) -> (s: String)
    ensures
        s@ == v@,
{
    v.iter().collect()
}

} // verus!
