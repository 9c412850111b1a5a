//! The entry point's version triple and its wire-level record.
//!
//! The CLAP entry point reports its version as a fixed-layout record of
//! three integers. Inside this crate the record is mirrored by
//! [`ClapVersion`]; the embedding program converts it to the ABI struct when
//! a call needs one.

use vstd::prelude::*;

verus! {

/// The wire-level version record of a plugin library's entry point:
/// a major, minor and revision number.
#[derive(Clone, Copy, Debug, PartialEq, Eq, Structural)]
pub struct ClapVersion {
    pub major: u32,
    pub minor: u32,
    pub revision: u32,
}

/// The version record built from a (major, minor, revision) triple.
pub open spec fn spec_version_from_triple(triple: (u32, u32, u32)) -> ClapVersion {
    ClapVersion { major: triple.0, minor: triple.1, revision: triple.2 }
}

/// The (major, minor, revision) triple read back out of a version record.
pub open spec fn spec_version_triple(v: ClapVersion) -> (u32, u32, u32) {
    (v.major, v.minor, v.revision)
}

impl ClapVersion {
    /// Build the wire-level record from a (major, minor, revision) triple.
    pub fn from_triple(triple: (u32, u32, u32)) -> (v: ClapVersion)
        ensures
            v == spec_version_from_triple(triple),
    {
        ClapVersion { major: triple.0, minor: triple.1, revision: triple.2 }
    }

    /// Read the (major, minor, revision) triple back out of the record.
    pub fn triple(&self) -> (t: (u32, u32, u32))
        ensures
            t == spec_version_triple(*self),
    {
        (self.major, self.minor, self.revision)
    }
}

/// Converting a version triple into the wire-level record and back yields
/// the original triple, and the other way round: the two conversions are
/// inverses.
pub proof fn lemma_version_round_trip(triple: (u32, u32, u32), v: ClapVersion)
    ensures
        spec_version_triple(spec_version_from_triple(triple)) == triple,
        spec_version_from_triple(spec_version_triple(v)) == v,
{
}

} // verus!
