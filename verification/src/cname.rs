//! Names as the game's RTTI identifies them: the 64-bit FNV-1a hash of the
//! name's UTF-8 bytes.
use vstd::prelude::*;
use vstd::string::StringSliceAdditionalSpecFns;

use crate::hash::{fnv1a64, spec_fnv1a64};

verus! {

/// A hashed name, as used by the game to identify types, functions and
/// properties. Corresponds to `CName` in redscript.
#[derive(Debug, Clone, Copy, PartialEq, Eq, Hash, Structural)]
pub struct CName {
    hash: u64,
}

impl View for CName {
    type V = u64;

    /// A name is seen as its hash.
    closed spec fn view(&self) -> u64 {
        self.hash
    }
}

impl CName {
    /// Two names are equal exactly when their hashes are.
    pub proof fn lemma_view_eq(a: CName, b: CName)
        ensures
            (a@ == b@) <==> a == b,
    {
    }

    /// Hashes a name.
    pub fn new(str: &str) -> (name: CName)
        ensures
            name@ == spec_fnv1a64(str.spec_bytes()),
    {
        CName { hash: fnv1a64(str) }
    }

    /// Hashes a name given as raw bytes.
    pub fn from_bytes(bytes: &[u8]) -> (name: CName)
        ensures
            name@ == spec_fnv1a64(bytes@),
    {
        CName { hash: crate::hash::fnv1a64_bytes(bytes) }
    }

    /// The name's 64-bit hash.
    pub fn hash(&self) -> (hash: u64)
        ensures
            hash == self@,
    {
        self.hash
    }

}

impl Default for CName {
    fn default() -> (name: CName)
        ensures
            name@ == 0,
    {
        CName { hash: 0 }
    }
}

} // verus!
