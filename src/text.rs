use vstd::prelude::*;
use vstd::string::StrSliceExecFns;

verus! {

/// Whether `s` is exactly the five characters given.
pub(crate) fn five_chars_equal(s: &str, a: char, b: char, c: char, d: char, e: char) -> (r: bool)
    ensures
        r == (s@ == seq![a, b, c, d, e]),
{
    if s.unicode_len() != 5 {
        return false;
    }
    let r = s.get_char(0) == a && s.get_char(1) == b && s.get_char(2) == c && s.get_char(3) == d
        && s.get_char(4) == e;
    proof {
        if r {
            assert(s@ =~= seq![a, b, c, d, e]);
        }
    }
    r
}

} // verus!
