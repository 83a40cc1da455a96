use crate::istring::IString;
use crate::fold::{cmp_ignore_case, eq_ignore_case, fold_cmp, folds_equal};
use vstd::prelude::*;

verus! {

/// Either a borrowed string or an interned handle, compared by text alike and
/// without regard to case.
/// Holding a handle, it carries the handle's obligation to be given back.
pub enum RefOrIStringCi<'a> {
    Ref(&'a str),
    IString(IString),
}

impl<'a> RefOrIStringCi<'a> {
    /// The text held, whichever the variant.
    pub open spec fn text(&self) -> Seq<char> {
        match self {
            RefOrIStringCi::Ref(s) => s@,
            RefOrIStringCi::IString(h) => h.text(),
        }
    }

    /// The text held, whichever the variant.
    pub fn as_str(&self) -> (r: &str)
        ensures
            r@ == self.text(),
    {
        match self {
            RefOrIStringCi::IString(s) => s.as_str(),
            RefOrIStringCi::Ref(s) => s,
        }
    }

    /// Whether the text held equals `other` under case folding.
    pub fn eq_str(&self, other: &str) -> (r: bool)
        ensures
            r == folds_equal(self.text(), other@),
    {
        eq_ignore_case(self.as_str(), other)
    }

    /// The handle held, if any; a borrowed string gives none.
    pub fn into_istring(self) -> (r: Option<IString>)
        ensures
            match self {
                RefOrIStringCi::IString(h) => r == Some(h),
                RefOrIStringCi::Ref(_) => r is None,
            },
    {
        match self {
            RefOrIStringCi::IString(v) => Some(v),
            RefOrIStringCi::Ref(_) => None,
        }
    }
}

impl<'a> From<&'a str> for RefOrIStringCi<'a> {
    fn from(value: &'a str) -> (r: RefOrIStringCi<'a>) {
        RefOrIStringCi::Ref(value)
    }
}

impl<'a> vstd::std_specs::convert::FromSpecImpl<&'a str> for RefOrIStringCi<'a> {
    open spec fn obeys_from_spec() -> bool {
        true
    }

    open spec fn from_spec(v: &'a str) -> RefOrIStringCi<'a> {
        RefOrIStringCi::Ref(v)
    }
}

impl<'a> From<IString> for RefOrIStringCi<'a> {
    fn from(value: IString) -> (r: RefOrIStringCi<'a>) {
        RefOrIStringCi::IString(value)
    }
}

impl<'a> vstd::std_specs::convert::FromSpecImpl<IString> for RefOrIStringCi<'a> {
    open spec fn obeys_from_spec() -> bool {
        true
    }

    open spec fn from_spec(v: IString) -> RefOrIStringCi<'a> {
        RefOrIStringCi::IString(v)
    }
}

impl<'a> From<RefOrIStringCi<'a>> for Option<IString> {
    fn from(value: RefOrIStringCi<'a>) -> (r: Option<IString>) {
        value.into_istring()
    }
}

impl<'a> vstd::std_specs::convert::FromSpecImpl<RefOrIStringCi<'a>> for Option<IString> {
    open spec fn obeys_from_spec() -> bool {
        true
    }

    open spec fn from_spec(v: RefOrIStringCi<'a>) -> Option<IString> {
        match v {
            RefOrIStringCi::IString(h) => Some(h),
            RefOrIStringCi::Ref(_) => None,
        }
    }
}

impl<'a> PartialEq for RefOrIStringCi<'a> {
    /// Equality of the texts under case folding.
    fn eq(&self, other: &RefOrIStringCi<'a>) -> (r: bool) {
        eq_ignore_case(self.as_str(), other.as_str())
    }
}

impl<'a> vstd::std_specs::cmp::PartialEqSpecImpl for RefOrIStringCi<'a> {
    open spec fn obeys_eq_spec() -> bool {
        true
    }

    open spec fn eq_spec(&self, other: &RefOrIStringCi<'a>) -> bool {
        folds_equal(self.text(), other.text())
    }
}

impl<'a> Eq for RefOrIStringCi<'a> {
}

impl<'a> std::ops::Deref for RefOrIStringCi<'a> {
    type Target = str;

    fn deref(&self) -> (r: &str)
        ensures
            r@ == self.text(),
    {
        self.as_str()
    }
}

impl<'a> PartialEq<str> for RefOrIStringCi<'a> {
    /// Equality of the text held with a string slice under case folding.
    fn eq(&self, other: &str) -> (r: bool) {
        self.eq_str(other)
    }
}

impl<'a> vstd::std_specs::cmp::PartialEqSpecImpl<str> for RefOrIStringCi<'a> {
    open spec fn obeys_eq_spec() -> bool {
        true
    }

    open spec fn eq_spec(&self, other: &str) -> bool {
        folds_equal(self.text(), other@)
    }
}

impl<'a> PartialEq<RefOrIStringCi<'a>> for str {
    /// Equality of a string slice with the text held under case folding.
    fn eq(&self, other: &RefOrIStringCi<'a>) -> (r: bool) {
        eq_ignore_case(self, other.as_str())
    }
}

impl<'a> vstd::std_specs::cmp::PartialEqSpecImpl<RefOrIStringCi<'a>> for str {
    open spec fn obeys_eq_spec() -> bool {
        true
    }

    open spec fn eq_spec(&self, other: &RefOrIStringCi<'a>) -> bool {
        folds_equal(self@, other.text())
    }
}

impl<'a> PartialOrd for RefOrIStringCi<'a> {
    /// The order of the texts under case folding.
    fn partial_cmp(&self, other: &RefOrIStringCi<'a>) -> (r: Option<std::cmp::Ordering>) {
        Some(cmp_ignore_case(self.as_str(), other.as_str()))
    }
}

impl<'a> vstd::std_specs::cmp::PartialOrdSpecImpl for RefOrIStringCi<'a> {
    open spec fn obeys_partial_cmp_spec() -> bool {
        true
    }

    open spec fn partial_cmp_spec(&self, other: &RefOrIStringCi<'a>) -> Option<std::cmp::Ordering> {
        Some(fold_cmp(self.text(), other.text()))
    }
}

impl<'a> PartialOrd<str> for RefOrIStringCi<'a> {
    /// The order of the text held and a string slice under case folding.
    fn partial_cmp(&self, other: &str) -> (r: Option<std::cmp::Ordering>) {
        Some(cmp_ignore_case(self.as_str(), other))
    }
}

impl<'a> vstd::std_specs::cmp::PartialOrdSpecImpl<str> for RefOrIStringCi<'a> {
    open spec fn obeys_partial_cmp_spec() -> bool {
        true
    }

    open spec fn partial_cmp_spec(&self, other: &str) -> Option<std::cmp::Ordering> {
        Some(fold_cmp(self.text(), other@))
    }
}

impl<'a> PartialOrd<RefOrIStringCi<'a>> for str {
    /// The order of a string slice and the text held under case folding.
    fn partial_cmp(&self, other: &RefOrIStringCi<'a>) -> (r: Option<std::cmp::Ordering>) {
        Some(cmp_ignore_case(self, other.as_str()))
    }
}

impl<'a> vstd::std_specs::cmp::PartialOrdSpecImpl<RefOrIStringCi<'a>> for str {
    open spec fn obeys_partial_cmp_spec() -> bool {
        true
    }

    open spec fn partial_cmp_spec(&self, other: &RefOrIStringCi<'a>) -> Option<std::cmp::Ordering> {
        Some(fold_cmp(self@, other.text()))
    }
}

impl<'a> std::hash::Hash for RefOrIStringCi<'a> {
    /// Relies on `unicase::UniCase::unicode` and its `Hash`: the case-folded characters
    /// are hashed, so texts equal under case folding hash alike.
    #[verifier::external_body]
    fn hash<H: std::hash::Hasher>(&self, state: &mut H) {
        unicase::UniCase::unicode(self.as_str()).hash(state)
    }
}

} // verus!
