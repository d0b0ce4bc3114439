//! The identifier under which a service's consensus state is kept.

use vstd::prelude::*;

verus! {

/// The fully qualified identifier of a service instance.
///
/// The store treats it as opaque text: its canonical string form is the
/// persisted key, and two identifiers name the same service exactly when
/// those forms hold the same characters.
#[derive(Debug, Clone, PartialEq, Eq)]
pub struct FullyQualifiedServiceId {
    canonical: String,
}

impl View for FullyQualifiedServiceId {
    type V = Seq<char>;

    closed spec fn view(&self) -> Seq<char> {
        self.canonical@
    }
}

impl FullyQualifiedServiceId {
    /// The identifier whose canonical form is `canonical`.
    pub fn new_from_string(canonical: String) -> (id: Self)
        ensures
            id@ == canonical@,
    {
        FullyQualifiedServiceId { canonical }
    }

    /// The identifier whose canonical form is `canonical`.
    pub fn new_from_str(canonical: &str) -> (id: Self)
        ensures
            id@ == canonical@,
    {
        FullyQualifiedServiceId { canonical: canonical.to_owned() }
    }

    /// The canonical string form.
    pub fn as_str(&self) -> (s: &str)
        ensures
            s@ == self@,
    {
        self.canonical.as_str()
    }

    /// Whether `self` and `other` name the same service.
    pub fn same_as(&self, other: &FullyQualifiedServiceId) -> (same: bool)
        ensures
            same == (self@ == other@),
    {
        self.canonical == other.canonical
    }

    /// A copy of the identifier.
    pub fn duplicate(&self) -> (id: Self)
        ensures
            id@ == self@,
    {
        FullyQualifiedServiceId { canonical: self.canonical.clone() }
    }
}

} // verus!
