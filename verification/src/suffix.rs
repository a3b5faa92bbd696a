use vstd::prelude::*;
use vstd::string::StrSliceExecFns;

verus! {

/// The suffix that routes a path to the PNG side of a conversion.
pub open spec fn png_suffix() -> Seq<char> {
    ".png"@
}

/// Whether `s` ends with `.png`, compared character by character
/// (case-sensitive, so `.PNG` does not count).
pub open spec fn spec_ends_with_png(s: Seq<char>) -> bool {
    s.len() >= 4 && s.skip(s.len() - 4) == png_suffix()
}

/// Decides whether a path ends with the `.png` suffix.
pub fn ends_with_png(s: &str) -> (r: bool)
    ensures
        r == spec_ends_with_png(s@),
{
    proof {
        reveal_strlit(".png");
    }
    let n: usize = s.unicode_len();
    if n < 4 {
        return false;
    }
    let c0: char = s.get_char(n - 4);
    let c1: char = s.get_char(n - 3);
    let c2: char = s.get_char(n - 2);
    let c3: char = s.get_char(n - 1);
    let r: bool = c0 == '.' && c1 == 'p' && c2 == 'n' && c3 == 'g';
    proof {
        if r {
            assert(s@.skip(s@.len() - 4) =~= png_suffix());
        } else if spec_ends_with_png(s@) {
            assert(s@.skip(s@.len() - 4)[0] == c0);
            assert(s@.skip(s@.len() - 4)[1] == c1);
            assert(s@.skip(s@.len() - 4)[2] == c2);
            assert(s@.skip(s@.len() - 4)[3] == c3);
        }
    }
    r
}

} // verus!
