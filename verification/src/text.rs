//! ASCII-case-insensitive string matching for configuration-by-name.
use vstd::prelude::*;

verus! {

/// The code point of `c` with an ASCII upper-case letter folded to lower
/// case.
pub open spec fn spec_lower_char(c: char) -> int {
    if 65 <= c as u32 <= 90 {
        c as u32 + 32
    } else {
        c as u32 as int
    }
}

/// Two character sequences are equal up to ASCII case.
pub open spec fn str_ieq(a: Seq<char>, b: Seq<char>) -> bool {
    a.len() == b.len() && (forall|i: int|
        0 <= i < a.len() ==> spec_lower_char(a[i]) == spec_lower_char(b[i]))
}

/// Compare two characters up to ASCII case.
fn char_ieq(a: char, b: char) -> (r: bool)
    ensures
        r == (spec_lower_char(a) == spec_lower_char(b)),
{
    let ai = a as u32;
    let bi = b as u32;
    let al = if 65 <= ai && ai <= 90 {
        ai + 32
    } else {
        ai
    };
    let bl = if 65 <= bi && bi <= 90 {
        bi + 32
    } else {
        bi
    };
    al == bl
}

/// Compare two strings up to ASCII case.
pub fn str_ieq_exec(a: &str, b: &str) -> (r: bool)
    ensures
        r == str_ieq(a@, b@),
{
    let an = a.unicode_len();
    let bn = b.unicode_len();
    if an != bn {
        return false;
    }
    let mut i: usize = 0;
    while i < an
        invariant
            i <= an,
            an == a@.len(),
            an == b@.len(),
            forall|j: int| 0 <= j < i ==> spec_lower_char(a@[j]) == spec_lower_char(b@[j]),
        decreases an - i,
    {
        if !char_ieq(a.get_char(i), b.get_char(i)) {
            return false;
        }
        i += 1;
    }
    true
}

} // verus!
