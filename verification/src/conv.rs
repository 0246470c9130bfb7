//! How a row is identified: by a string, where it has one.

use vstd::prelude::*;

verus! {

/// Compares two string slices with `str::eq`. Trusted: it holds exactly when the two hold
/// the same characters.
#[verifier::external_body]
pub(crate) fn str_eq(a: &str, b: &str) -> (equal: bool)
    ensures
        equal == (a@ == b@),
{
    a == b
}

/// A value that may be identified by a string.
pub trait AsMaybeStr {
    /// The identifying string, where there is one.
    spec fn maybe_str(&self) -> Option<Seq<char>>;

    fn as_maybe_str(&self) -> (s: Option<&str>)
        ensures
            match s {
                Some(text) => self.maybe_str() == Some(text@),
                None => self.maybe_str() is None,
            },
    ;
}

/// A value that has an identifier, handed out by reference.
pub trait ToGqlId {
    spec fn gql_id(&self) -> Seq<char>;

    fn to_gql_id(&self) -> (id: String)
        ensures
            id@ == self.gql_id(),
    ;
}

/// A value that turns into its identifier.
pub trait IntoGqlId {
    spec fn gql_id(&self) -> Seq<char>;

    fn into_gql_id(self) -> (id: String)
        ensures
            id@ == self.gql_id(),
    ;
}

impl AsMaybeStr for String {
    open spec fn maybe_str(&self) -> Option<Seq<char>> {
        Some(self@)
    }

    fn as_maybe_str(&self) -> (s: Option<&str>) {
        Some(self.as_str())
    }
}

impl AsMaybeStr for str {
    open spec fn maybe_str(&self) -> Option<Seq<char>> {
        Some(self@)
    }

    fn as_maybe_str(&self) -> (s: Option<&str>) {
        Some(self)
    }
}

impl ToGqlId for String {
    open spec fn gql_id(&self) -> Seq<char> {
        self@
    }

    fn to_gql_id(&self) -> (id: String) {
        self.clone()
    }
}

impl ToGqlId for str {
    open spec fn gql_id(&self) -> Seq<char> {
        self@
    }

    fn to_gql_id(&self) -> (id: String) {
        self.to_owned()
    }
}

impl IntoGqlId for String {
    open spec fn gql_id(&self) -> Seq<char> {
        self@
    }

    fn into_gql_id(self) -> (id: String) {
        self
    }
}

impl IntoGqlId for &str {
    open spec fn gql_id(&self) -> Seq<char> {
        self@
    }

    fn into_gql_id(self) -> (id: String) {
        self.to_owned()
    }
}

/// A row together with the identifier it is stored under.
#[derive(Debug, Clone, PartialEq, Eq)]
pub struct Keyed<T> {
    pub id: String,
    pub node: T,
}

impl<T> AsMaybeStr for Keyed<T> {
    open spec fn maybe_str(&self) -> Option<Seq<char>> {
        Some(self.id@)
    }

    fn as_maybe_str(&self) -> (s: Option<&str>) {
        Some(self.id.as_str())
    }
}

impl<T> ToGqlId for Keyed<T> {
    open spec fn gql_id(&self) -> Seq<char> {
        self.id@
    }

    fn to_gql_id(&self) -> (id: String) {
        self.id.clone()
    }
}

impl<T> IntoGqlId for Keyed<T> {
    open spec fn gql_id(&self) -> Seq<char> {
        self.id@
    }

    fn into_gql_id(self) -> (id: String) {
        self.id
    }
}

} // verus!
