use crate::istring::IString;
use crate::text::{lex_cmp, str_cmp, str_eq};
use vstd::prelude::*;
use vstd::std_specs::cmp::PartialEqSpec;
use vstd::std_specs::convert::FromSpec;

verus! {

/// Either a borrowed string or an interned handle, compared by text alike.
/// Holding a handle, it carries the handle's obligation to be given back.
pub enum RefOrIString<'a> {
    Ref(&'a str),
    IString(IString),
}

impl<'a> RefOrIString<'a> {
    /// The text held, whichever the variant.
    pub open spec fn text(&self) -> Seq<char> {
        match self {
            RefOrIString::Ref(s) => s@,
            RefOrIString::IString(h) => h.text(),
        }
    }

    /// The text held, whichever the variant.
    pub fn as_str(&self) -> (r: &str)
        ensures
            r@ == self.text(),
    {
        match self {
            RefOrIString::IString(s) => s.as_str(),
            RefOrIString::Ref(s) => s,
        }
    }

    /// Whether the text held equals `other`.
    pub fn eq_str(&self, other: &str) -> (r: bool)
        ensures
            r == (self.text() == other@),
    {
        str_eq(self.as_str(), other)
    }

    /// The handle held, if any; a borrowed string gives none.
    pub fn into_istring(self) -> (r: Option<IString>)
        ensures
            match self {
                RefOrIString::IString(h) => r == Some(h),
                RefOrIString::Ref(_) => r is None,
            },
    {
        match self {
            RefOrIString::IString(v) => Some(v),
            RefOrIString::Ref(_) => None,
        }
    }
}

impl<'a> From<&'a str> for RefOrIString<'a> {
    fn from(value: &'a str) -> (r: RefOrIString<'a>) {
        RefOrIString::Ref(value)
    }
}

impl<'a> vstd::std_specs::convert::FromSpecImpl<&'a str> for RefOrIString<'a> {
    open spec fn obeys_from_spec() -> bool {
        true
    }

    open spec fn from_spec(v: &'a str) -> RefOrIString<'a> {
        RefOrIString::Ref(v)
    }
}

impl<'a> From<IString> for RefOrIString<'a> {
    fn from(value: IString) -> (r: RefOrIString<'a>) {
        RefOrIString::IString(value)
    }
}

impl<'a> vstd::std_specs::convert::FromSpecImpl<IString> for RefOrIString<'a> {
    open spec fn obeys_from_spec() -> bool {
        true
    }

    open spec fn from_spec(v: IString) -> RefOrIString<'a> {
        RefOrIString::IString(v)
    }
}

impl<'a> From<RefOrIString<'a>> for Option<IString> {
    fn from(value: RefOrIString<'a>) -> (r: Option<IString>) {
        value.into_istring()
    }
}

impl<'a> vstd::std_specs::convert::FromSpecImpl<RefOrIString<'a>> for Option<IString> {
    open spec fn obeys_from_spec() -> bool {
        true
    }

    open spec fn from_spec(v: RefOrIString<'a>) -> Option<IString> {
        match v {
            RefOrIString::IString(h) => Some(h),
            RefOrIString::Ref(_) => None,
        }
    }
}

impl<'a> PartialEq for RefOrIString<'a> {
    /// Equality of the texts, whichever the variants.
    fn eq(&self, other: &RefOrIString<'a>) -> (r: bool) {
        match (self, other) {
            (RefOrIString::IString(a), RefOrIString::IString(b)) => a.eq_str(b.as_str()),
            (RefOrIString::IString(a), RefOrIString::Ref(b)) => a.eq_str(b),
            (RefOrIString::Ref(a), RefOrIString::IString(b)) => b.eq_str(a),
            (RefOrIString::Ref(a), RefOrIString::Ref(b)) => str_eq(a, b),
        }
    }
}

impl<'a> vstd::std_specs::cmp::PartialEqSpecImpl for RefOrIString<'a> {
    open spec fn obeys_eq_spec() -> bool {
        true
    }

    open spec fn eq_spec(&self, other: &RefOrIString<'a>) -> bool {
        self.text() == other.text()
    }
}

impl<'a> Eq for RefOrIString<'a> {
}

impl<'a> std::ops::Deref for RefOrIString<'a> {
    type Target = str;

    fn deref(&self) -> (r: &str)
        ensures
            r@ == self.text(),
    {
        self.as_str()
    }
}

/// A borrowed string and a handle on the same text compare equal, either way round;
/// converted to an optional handle, the handle gives it back and the borrowed string
/// gives none.
pub proof fn lemma_borrowed_eq_owned<'a>(x: &'a str, h: IString)
    requires
        h.text() == x@,
    ensures
        RefOrIString::Ref(x).eq_spec(&RefOrIString::IString(h)),
        RefOrIString::<'a>::IString(h).eq_spec(&RefOrIString::Ref(x)),
        <Option<IString> as FromSpec<RefOrIString<'a>>>::from_spec(RefOrIString::IString(h))
            == Some(h),
        <Option<IString> as FromSpec<RefOrIString<'a>>>::from_spec(RefOrIString::Ref(x)) is None,
{
}

impl<'a> std::hash::Hash for RefOrIString<'a> {
    /// Relies on `str`'s `Hash`: the text alone is hashed, as it is for a borrowed `str`.
    #[verifier::external_body]
    fn hash<H: std::hash::Hasher>(&self, state: &mut H) {
        self.as_str().hash(state)
    }
}

impl<'a> PartialOrd for RefOrIString<'a> {
    /// Values are ordered by their text, whichever the variant.
    fn partial_cmp(&self, other: &RefOrIString<'a>) -> (r: Option<std::cmp::Ordering>) {
        Some(str_cmp(self.as_str(), other.as_str()))
    }
}

impl<'a> vstd::std_specs::cmp::PartialOrdSpecImpl for RefOrIString<'a> {
    open spec fn obeys_partial_cmp_spec() -> bool {
        true
    }

    open spec fn partial_cmp_spec(&self, other: &RefOrIString<'a>) -> Option<std::cmp::Ordering> {
        Some(lex_cmp(self.text(), other.text()))
    }
}

impl<'a> PartialEq<str> for RefOrIString<'a> {
    /// Equality of the text held with a string slice.
    fn eq(&self, other: &str) -> (r: bool) {
        self.eq_str(other)
    }
}

impl<'a> vstd::std_specs::cmp::PartialEqSpecImpl<str> for RefOrIString<'a> {
    open spec fn obeys_eq_spec() -> bool {
        true
    }

    open spec fn eq_spec(&self, other: &str) -> bool {
        self.text() == other@
    }
}

impl<'a> PartialEq<RefOrIString<'a>> for str {
    /// Equality of a string slice with the text held.
    fn eq(&self, other: &RefOrIString<'a>) -> (r: bool) {
        str_eq(self, other.as_str())
    }
}

impl<'a> vstd::std_specs::cmp::PartialEqSpecImpl<RefOrIString<'a>> for str {
    open spec fn obeys_eq_spec() -> bool {
        true
    }

    open spec fn eq_spec(&self, other: &RefOrIString<'a>) -> bool {
        self@ == other.text()
    }
}

impl<'a> PartialOrd<str> for RefOrIString<'a> {
    /// The order of the text held and a string slice.
    fn partial_cmp(&self, other: &str) -> (r: Option<std::cmp::Ordering>) {
        Some(str_cmp(self.as_str(), other))
    }
}

impl<'a> vstd::std_specs::cmp::PartialOrdSpecImpl<str> for RefOrIString<'a> {
    open spec fn obeys_partial_cmp_spec() -> bool {
        true
    }

    open spec fn partial_cmp_spec(&self, other: &str) -> Option<std::cmp::Ordering> {
        Some(lex_cmp(self.text(), other@))
    }
}

impl<'a> PartialOrd<RefOrIString<'a>> for str {
    /// The order of a string slice and the text held.
    fn partial_cmp(&self, other: &RefOrIString<'a>) -> (r: Option<std::cmp::Ordering>) {
        Some(str_cmp(self, other.as_str()))
    }
}

impl<'a> vstd::std_specs::cmp::PartialOrdSpecImpl<RefOrIString<'a>> for str {
    open spec fn obeys_partial_cmp_spec() -> bool {
        true
    }

    open spec fn partial_cmp_spec(&self, other: &RefOrIString<'a>) -> Option<std::cmp::Ordering> {
        Some(lex_cmp(self@, other.text()))
    }
}

} // verus!
