//! Object-storage blob fetch: the provider registry's verified part.
//!
//! The drivers themselves do network I/O and read their credentials from
//! the environment, so they live with the embedding program; the library
//! holds the provider kinds and the capability trait.

use vstd::prelude::*;
use crate::error::Error;
use crate::strutil::str_eq;

verus! {

/// The supported object-storage providers.
#[derive(Debug, Clone, Copy, PartialEq, Eq, Hash, Structural)]
pub enum Type {
    AliOSS,
}

impl Type {
    /// The provider's name.
    pub open spec fn name_spec(self) -> Seq<char> {
        match self {
            Type::AliOSS => "AliOSS"@,
        }
    }

    /// The provider's name as a string.
    pub fn name(&self) -> (r: &'static str)
        ensures
            r@ == self.name_spec(),
    {
        match self {
            Type::AliOSS => "AliOSS",
        }
    }

    /// Parse a provider name; accepts exactly `AliOSS`.
    pub fn from_name(s: &str) -> (r: Option<Type>)
        ensures
            r matches Some(t) ==> s@ == t.name_spec(),
            r is None ==> forall|t: Type| s@ != #[trigger] t.name_spec(),
    {
        if str_eq(s, "AliOSS") {
            Some(Type::AliOSS)
        } else {
            None
        }
    }
}

/// The capability of an object-storage driver.
pub trait Provider {
    /// Fetch the blob stored under `path`.
    fn get_blob(&mut self, path: &str) -> Result<Vec<u8>, Error>;
}

} // verus!
