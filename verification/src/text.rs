//! Verified utilities on strings: equality over the views, and recognition
//! of optional type descriptors.

use vstd::prelude::*;
use vstd::string::StrSliceExecFns;

verus! {

/// Character-for-character string equality, stated over the views.
pub fn str_eq(a: &str, b: &str) -> (r: bool)
    ensures
        r == (a@ == b@),
{
    let alen = a.unicode_len();
    let blen = b.unicode_len();
    if alen != blen {
        return false;
    }
    let mut i: usize = 0;
    while i < alen
        invariant
            alen == a@.len(),
            blen == b@.len(),
            alen == blen,
            i <= alen,
            forall|j: int| 0 <= j < i ==> a@[j] == b@[j],
        decreases alen - i,
    {
        if a.get_char(i) != b.get_char(i) {
            return false;
        }
        i += 1;
    }
    proof {
        assert(a@ =~= b@);
    }
    true
}

/// A type descriptor denotes the host's optional type when its text begins
/// with `Option<`.
pub open spec fn is_option_ty(ty: Seq<char>) -> bool {
    ty.len() >= 7 && ty.take(7) == "Option<"@
}

/// Recognizes a type descriptor whose text begins with `Option<`.
pub fn is_option_type(ty: &str) -> (r: bool)
    ensures
        r == is_option_ty(ty@),
{
    proof {
        reveal_strlit("Option<");
    }
    let n = ty.unicode_len();
    if n < 7 {
        return false;
    }
    let r = ty.get_char(0) == 'O' && ty.get_char(1) == 'p' && ty.get_char(2) == 't' && ty.get_char(
        3,
    ) == 'i' && ty.get_char(4) == 'o' && ty.get_char(5) == 'n' && ty.get_char(6) == '<';
    proof {
        if r {
            assert(ty@.take(7) =~= "Option<"@);
        } else {
            assert(ty@.take(7) != "Option<"@) by {
                if ty@.take(7) == "Option<"@ {
                    assert(ty@[0] == "Option<"@[0]);
                    assert(ty@[1] == "Option<"@[1]);
                    assert(ty@[2] == "Option<"@[2]);
                    assert(ty@[3] == "Option<"@[3]);
                    assert(ty@[4] == "Option<"@[4]);
                    assert(ty@[5] == "Option<"@[5]);
                    assert(ty@[6] == "Option<"@[6]);
                }
            }
        }
    }
    r
}

} // verus!
