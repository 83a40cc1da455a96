use std::cmp::Ordering;
use str_utils::EqIgnoreCase;
use unicase::UniCase;
use vstd::prelude::*;

verus! {

/// Whether two texts are equal once their case is folded.
pub uninterp spec fn folds_equal(a: Seq<char>, b: Seq<char>) -> bool;

/// The order of two texts once their case is folded.
pub uninterp spec fn fold_cmp(a: Seq<char>, b: Seq<char>) -> Ordering;

/// Every character is ASCII.
pub open spec fn all_ascii(s: Seq<char>) -> bool {
    forall|i: int| 0 <= i < s.len() ==> (#[trigger] s[i]) as u32 <= 0x7f
}

/// The code of `c` with an ASCII upper-case letter mapped to lower case.
pub open spec fn ascii_lower(c: char) -> int {
    if 0x41 <= c as u32 <= 0x5a {
        c as int + 0x20
    } else {
        c as int
    }
}

/// Equality with ASCII letters compared without regard to case.
pub open spec fn ascii_ci_equal(a: Seq<char>, b: Seq<char>) -> bool {
    &&& a.len() == b.len()
    &&& forall|i: int| 0 <= i < a.len() ==> ascii_lower(#[trigger] a[i]) == ascii_lower(b[i])
}

/// Relies on `str_utils::EqIgnoreCase::eq_ignore_case`: equality under case folding.
/// Its source compares two ASCII strings with `str::eq_ignore_ascii_case`, and otherwise
/// compares the case-folded characters of both sides, so a text always matches itself
/// and the comparison does not depend on the order of its arguments.
#[verifier::external_body]
pub(crate) fn eq_ignore_case(a: &str, b: &str) -> (r: bool)
    ensures
        r == folds_equal(a@, b@),
        r == folds_equal(b@, a@),
        a@ == b@ ==> r,
        all_ascii(a@) && all_ascii(b@) ==> (r == ascii_ci_equal(a@, b@)),
{
    a.eq_ignore_case(b)
}

/// Relies on `unicase::UniCase::unicode` and its `Ord`: the order of the case-folded
/// characters of both sides. Two texts come out equal exactly when their folded
/// characters are equal, which is when `eq_ignore_case` matches them.
#[verifier::external_body]
pub(crate) fn cmp_ignore_case(a: &str, b: &str) -> (r: Ordering)
    ensures
        r == fold_cmp(a@, b@),
        (r == Ordering::Equal) == folds_equal(a@, b@),
{
    UniCase::unicode(a).cmp(&UniCase::unicode(b))
}

} // verus!
