use crate::fold::{cmp_ignore_case, eq_ignore_case, fold_cmp, folds_equal};
use crate::istring::IString;
use crate::jail::Jail;
use vstd::prelude::*;
use vstd::std_specs::cmp::PartialEqSpec;

verus! {

/// A handle that compares without regard to case. It still has to be given back to
/// its interner, through the handle inside.
pub struct IStringCi(pub IString);

impl IStringCi {
    /// The interned text.
    pub open spec fn text(&self) -> Seq<char> {
        self.0.text()
    }

    /// The interned text.
    pub fn as_str(&self) -> (r: &str)
        ensures
            r@ == self.text(),
    {
        self.0.as_str()
    }

    /// Whether the interned text equals `other` under case folding.
    pub fn eq_str(&self, other: &str) -> (r: bool)
        ensures
            r == folds_equal(self.text(), other@),
    {
        eq_ignore_case(self.0.as_str(), other)
    }

    /// The handle inside.
    pub fn into_inner(self) -> (r: IString)
        ensures
            r == self.0,
    {
        self.0
    }
}

impl From<IString> for IStringCi {
    fn from(value: IString) -> (r: IStringCi) {
        IStringCi(value)
    }
}

impl vstd::std_specs::convert::FromSpecImpl<IString> for IStringCi {
    open spec fn obeys_from_spec() -> bool {
        true
    }

    open spec fn from_spec(v: IString) -> IStringCi {
        IStringCi(v)
    }
}

impl PartialEq for IStringCi {
    /// Equality of the texts under case folding.
    fn eq(&self, other: &IStringCi) -> (r: bool) {
        eq_ignore_case(self.0.as_str(), other.0.as_str())
    }
}

impl vstd::std_specs::cmp::PartialEqSpecImpl for IStringCi {
    open spec fn obeys_eq_spec() -> bool {
        true
    }

    open spec fn eq_spec(&self, other: &IStringCi) -> bool {
        folds_equal(self.text(), other.text())
    }
}

impl Eq for IStringCi {
}

impl std::ops::Deref for IStringCi {
    type Target = str;

    fn deref(&self) -> (r: &str)
        ensures
            r@ == self.text(),
    {
        self.as_str()
    }
}

/// Two live handles of one interner whose texts differ only by case compare equal once
/// wrapped to ignore case, and unequal as plain handles.
pub proof fn lemma_case_insensitive_eq(j: &Jail, a: IString, b: IString)
    requires
        j.wf(),
        j.issued(&a),
        j.issued(&b),
        folds_equal(a.text(), b.text()),
        a.text() != b.text(),
    ensures
        IStringCi(a).eq_spec(&IStringCi(b)),
        !a.eq_spec(&b),
{
    j.lemma_issued_addr_iff_text(&a, &b);
}

impl PartialEq<str> for IStringCi {
    /// Equality of the interned text with a string slice under case folding.
    fn eq(&self, other: &str) -> (r: bool) {
        self.eq_str(other)
    }
}

impl vstd::std_specs::cmp::PartialEqSpecImpl<str> for IStringCi {
    open spec fn obeys_eq_spec() -> bool {
        true
    }

    open spec fn eq_spec(&self, other: &str) -> bool {
        folds_equal(self.text(), other@)
    }
}

impl PartialEq<IStringCi> for str {
    /// Equality of a string slice with the interned text under case folding.
    fn eq(&self, other: &IStringCi) -> (r: bool) {
        eq_ignore_case(self, other.as_str())
    }
}

impl vstd::std_specs::cmp::PartialEqSpecImpl<IStringCi> for str {
    open spec fn obeys_eq_spec() -> bool {
        true
    }

    open spec fn eq_spec(&self, other: &IStringCi) -> bool {
        folds_equal(self@, other.text())
    }
}

impl PartialOrd for IStringCi {
    /// The order of the texts under case folding.
    fn partial_cmp(&self, other: &IStringCi) -> (r: Option<std::cmp::Ordering>) {
        Some(cmp_ignore_case(self.as_str(), other.as_str()))
    }
}

impl vstd::std_specs::cmp::PartialOrdSpecImpl for IStringCi {
    open spec fn obeys_partial_cmp_spec() -> bool {
        true
    }

    open spec fn partial_cmp_spec(&self, other: &IStringCi) -> Option<std::cmp::Ordering> {
        Some(fold_cmp(self.text(), other.text()))
    }
}

impl PartialOrd<str> for IStringCi {
    /// The order of the text held and a string slice under case folding.
    fn partial_cmp(&self, other: &str) -> (r: Option<std::cmp::Ordering>) {
        Some(cmp_ignore_case(self.as_str(), other))
    }
}

impl vstd::std_specs::cmp::PartialOrdSpecImpl<str> for IStringCi {
    open spec fn obeys_partial_cmp_spec() -> bool {
        true
    }

    open spec fn partial_cmp_spec(&self, other: &str) -> Option<std::cmp::Ordering> {
        Some(fold_cmp(self.text(), other@))
    }
}

impl PartialOrd<IStringCi> for str {
    /// The order of a string slice and the text held under case folding.
    fn partial_cmp(&self, other: &IStringCi) -> (r: Option<std::cmp::Ordering>) {
        Some(cmp_ignore_case(self, other.as_str()))
    }
}

impl vstd::std_specs::cmp::PartialOrdSpecImpl<IStringCi> for str {
    open spec fn obeys_partial_cmp_spec() -> bool {
        true
    }

    open spec fn partial_cmp_spec(&self, other: &IStringCi) -> Option<std::cmp::Ordering> {
        Some(fold_cmp(self@, other.text()))
    }
}

impl std::hash::Hash for IStringCi {
    /// Relies on `unicase::UniCase::unicode` and its `Hash`: the case-folded characters
    /// are hashed, so texts equal under case folding hash alike.
    #[verifier::external_body]
    fn hash<H: std::hash::Hasher>(&self, state: &mut H) {
        unicase::UniCase::unicode(self.as_str()).hash(state)
    }
}

} // verus!
