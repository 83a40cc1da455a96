use crate::text::{lex_cmp, str_cmp, str_eq};
use vstd::prelude::*;

verus! {

/// The address that a released handle carries: no live allocation ever has it.
pub const NULL_ADDR: u64 = 0;

/// The neutral state of a handle: the null address and its placeholder text.
pub struct StrNullPtr(pub u64, pub String);

impl StrNullPtr {
    /// The neutral state.
    pub fn new() -> (r: StrNullPtr)
        ensures
            r.0 == NULL_ADDR,
            r.1@ == "NULLPTR"@,
    {
        StrNullPtr(NULL_ADDR, "NULLPTR".to_owned())
    }
}

/// The address that marks a handle as released.
pub fn null_str_ptr() -> (r: u64)
    ensures
        r == NULL_ADDR,
{
    StrNullPtr::new().0
}

/// An interned string: a handle on one canonical allocation of an interner.
///
/// A handle cannot be cloned: each one stands for one unit of its allocation's
/// reference count, and must be given back to the interner that issued it.
/// Dropping a handle that was not given back is not detected: the interner then
/// keeps counting the reference, and its entry is never removed.
///
/// Two handles are equal when they refer to the same allocation and read the same
/// text; within one interner the address alone decides.
pub struct IString {
    pub(crate) text: String,
    pub(crate) addr: u64,
}

impl IString {
    /// The address of the allocation the handle refers to.
    pub closed spec fn addr(&self) -> u64 {
        self.addr
    }

    /// The text of the allocation the handle refers to.
    pub closed spec fn text(&self) -> Seq<char> {
        self.text@
    }

    /// Whether the handle was neutralized by a release.
    pub open spec fn is_released(&self) -> bool {
        self.addr() == NULL_ADDR
    }

    pub(crate) fn new(text: String, addr: u64) -> (r: IString)
        ensures
            r.text() == text@,
            r.addr() == addr,
    {
        IString { text, addr }
    }

    /// Neutralizes the handle: it then carries the null address.
    pub fn safe_drop(&mut self)
        ensures
            final(self).addr() == NULL_ADDR,
            final(self).text() == "NULLPTR"@,
            final(self).is_released(),
    {
        let null = StrNullPtr::new();
        self.addr = null.0;
        self.text = null.1;
    }

    /// The interned text.
    pub fn as_str(&self) -> (r: &str)
        ensures
            r@ == self.text(),
    {
        self.text.as_str()
    }

    /// The address of the allocation the handle refers to.
    pub fn address(&self) -> (r: u64)
        ensures
            r == self.addr(),
    {
        self.addr
    }

    /// Whether the interned text equals `other`.
    pub fn eq_str(&self, other: &str) -> (r: bool)
        ensures
            r == (self.text() == other@),
    {
        str_eq(self.text.as_str(), other)
    }
}

impl PartialEq for IString {
    /// Two handles are equal when they carry the same address and the same text.
    fn eq(&self, other: &IString) -> (r: bool) {
        self.addr == other.addr && str_eq(self.text.as_str(), other.text.as_str())
    }
}

impl vstd::std_specs::cmp::PartialEqSpecImpl for IString {
    open spec fn obeys_eq_spec() -> bool {
        true
    }

    open spec fn eq_spec(&self, other: &IString) -> bool {
        self.addr() == other.addr() && self.text() == other.text()
    }
}

impl Eq for IString {
}

impl std::ops::Deref for IString {
    type Target = str;

    fn deref(&self) -> (r: &str)
        ensures
            r@ == self.text(),
    {
        self.as_str()
    }
}

impl std::hash::Hash for IString {
    /// Relies on `str`'s `Hash`: the text alone is hashed, as it is for a borrowed `str`.
    #[verifier::external_body]
    fn hash<H: std::hash::Hasher>(&self, state: &mut H) {
        self.as_str().hash(state)
    }
}

impl PartialOrd for IString {
    /// Handles are ordered by their text.
    fn partial_cmp(&self, other: &IString) -> (r: Option<std::cmp::Ordering>) {
        Some(str_cmp(self.text.as_str(), other.text.as_str()))
    }
}

impl vstd::std_specs::cmp::PartialOrdSpecImpl for IString {
    open spec fn obeys_partial_cmp_spec() -> bool {
        true
    }

    open spec fn partial_cmp_spec(&self, other: &IString) -> Option<std::cmp::Ordering> {
        Some(lex_cmp(self.text(), other.text()))
    }
}

impl PartialEq<str> for IString {
    /// Equality of the interned text with a string slice.
    fn eq(&self, other: &str) -> (r: bool) {
        self.eq_str(other)
    }
}

impl vstd::std_specs::cmp::PartialEqSpecImpl<str> for IString {
    open spec fn obeys_eq_spec() -> bool {
        true
    }

    open spec fn eq_spec(&self, other: &str) -> bool {
        self.text() == other@
    }
}

impl PartialEq<IString> for str {
    /// Equality of a string slice with the interned text.
    fn eq(&self, other: &IString) -> (r: bool) {
        other.eq_str(self)
    }
}

impl vstd::std_specs::cmp::PartialEqSpecImpl<IString> for str {
    open spec fn obeys_eq_spec() -> bool {
        true
    }

    open spec fn eq_spec(&self, other: &IString) -> bool {
        self@ == other.text()
    }
}

} // verus!
