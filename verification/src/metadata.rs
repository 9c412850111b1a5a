//! Extraction of a whole library's plugin metadata.
//!
//! The embedding program asks the module's entry point for the mandatory
//! plugin factory, reads the factory's descriptor count and every
//! descriptor at indices `[0, count)`, and hands the result over as a
//! snapshot. Extraction then converts each descriptor in order — a null
//! descriptor at a valid index, or a descriptor with a bad field, aborts
//! with that index's error — and finally checks that no two plugins share
//! an `id`.

use vstd::prelude::*;
use vstd::string::StringExecFns;

use crate::descriptor::{
    descriptor_error, descriptor_metadata_view, descriptor_ok, lemma_metadata_fields_well_formed,
    PluginMetadata, PluginMetadataView, RawDescriptor,
};
use crate::error::{DescriptorIssue, LibraryError};
use crate::library::{plugin_factory_id, spec_plugin_factory_id};
use crate::version::{spec_version_from_triple, spec_version_triple, ClapVersion};

verus! {

/// What the embedding program read out of the plugin factory: one entry
/// per descriptor index, `None` where the factory returned a null
/// descriptor pointer.
#[derive(Debug)]
pub struct PluginFactorySnapshot {
    pub descriptors: Vec<Option<RawDescriptor>>,
}

/// Metadata for a whole plugin library: the entry point's version triple
/// and the metadata of every plugin it reports, in factory order.
#[derive(Debug, PartialEq, Eq)]
pub struct PluginLibraryMetadata {
    pub version: (u32, u32, u32),
    pub plugins: Vec<PluginMetadata>,
}

impl PluginLibraryMetadata {
    /// The wire-level version record for this plugin library.
    pub fn clap_version(&self) -> (v: ClapVersion)
        ensures
            v == spec_version_from_triple(self.version),
    {
        ClapVersion::from_triple(self.version)
    }
}

/// Whether one snapshot entry converts: the descriptor must be present and
/// well formed.
pub open spec fn entry_ok(e: Option<RawDescriptor>) -> bool {
    e matches Some(d) && descriptor_ok(d)
}

/// The metadata value of a convertible snapshot entry.
pub open spec fn entry_view(e: Option<RawDescriptor>) -> PluginMetadataView
    recommends
        entry_ok(e),
{
    descriptor_metadata_view(e->Some_0)
}

/// The issue a failing snapshot entry is reported with.
pub open spec fn entry_issue(e: Option<RawDescriptor>) -> DescriptorIssue
    recommends
        !entry_ok(e),
{
    match e {
        Option::None => DescriptorIssue::NullDescriptor,
        Option::Some(d) => DescriptorIssue::Conversion { error: descriptor_error(d) },
    }
}

/// Whether every snapshot entry converts.
pub open spec fn all_entries_ok(descs: Seq<Option<RawDescriptor>>) -> bool {
    forall|i: int| 0 <= i < descs.len() ==> entry_ok(descs[i])
}

/// Whether the converted entries all carry distinct plugin `id`s.
pub open spec fn entry_ids_unique(descs: Seq<Option<RawDescriptor>>) -> bool
    recommends
        all_entries_ok(descs),
{
    forall|i: int, j: int|
        0 <= i < j < descs.len() ==> entry_view(descs[i]).id != entry_view(descs[j]).id
}

/// Whether a sequence of plugin metadata values carries distinct `id`s.
pub open spec fn plugin_ids_unique(ps: Seq<PluginMetadata>) -> bool {
    forall|i: int, j: int| 0 <= i < j < ps.len() ==> ps[i]@.id != ps[j]@.id
}

/// The descriptors of a factory snapshot, when the factory was present.
pub open spec fn snapshot_view(factory: Option<&PluginFactorySnapshot>) -> Option<
    Seq<Option<RawDescriptor>>,
> {
    match factory {
        Option::None => Option::None,
        Option::Some(s) => Option::Some(s.descriptors@),
    }
}

/// What metadata extraction returns, for every combination of inputs.
///
/// Without the plugin factory, extraction fails with that factory's
/// identifier. With it, extraction succeeds exactly when every descriptor
/// is present and well formed and all plugin `id`s are distinct, and then
/// yields the version triple and the converted descriptors in order. A
/// failing descriptor aborts with the first failing index and its issue; a
/// duplicate `id` over well-formed descriptors fails as a duplicate, with
/// no partial metadata either way.
pub open spec fn spec_metadata_result(
    version: ClapVersion,
    factory: Option<Seq<Option<RawDescriptor>>>,
    r: Result<PluginLibraryMetadata, LibraryError>,
) -> bool {
    match factory {
        Option::None => r matches Err(e) && e matches LibraryError::FactoryUnsupported {
            factory_id,
        } && factory_id@ == spec_plugin_factory_id(),
        Option::Some(descs) => match r {
            Ok(m) => {
                &&& all_entries_ok(descs)
                &&& entry_ids_unique(descs)
                &&& m.version == spec_version_triple(version)
                &&& m.plugins@.len() == descs.len()
                &&& forall|i: int|
                    0 <= i < descs.len() ==> m.plugins@[i]@ == entry_view(descs[i])
            },
            Err(e) => {
                ||| {
                    &&& e matches LibraryError::MalformedDescriptor { index, issue }
                    &&& 0 <= (index as int) < descs.len()
                    &&& !entry_ok(descs[index as int])
                    &&& forall|j: int| 0 <= j < index ==> entry_ok(descs[j])
                    &&& issue == entry_issue(descs[index as int])
                }
                ||| {
                    &&& e == LibraryError::DuplicatePluginId
                    &&& all_entries_ok(descs)
                    &&& !entry_ids_unique(descs)
                }
            },
        },
    }
}

/// Every plugin in successfully extracted library metadata has a
/// non-empty `id` and a non-empty `name`, and each optional field is
/// either absent or non-empty — never present but empty.
pub proof fn lemma_extracted_plugins_well_formed(
    version: ClapVersion,
    descs: Seq<Option<RawDescriptor>>,
    m: PluginLibraryMetadata,
    i: int,
)
    requires
        spec_metadata_result(version, Some(descs), Ok(m)),
        0 <= i < m.plugins@.len(),
    ensures
        m.plugins@[i]@.id.len() > 0,
        m.plugins@[i]@.name.len() > 0,
        m.plugins@[i]@.version matches Some(s) ==> s.len() > 0,
        m.plugins@[i]@.vendor matches Some(s) ==> s.len() > 0,
        m.plugins@[i]@.description matches Some(s) ==> s.len() > 0,
        m.plugins@[i]@.manual_url matches Some(s) ==> s.len() > 0,
        m.plugins@[i]@.support_url matches Some(s) ==> s.len() > 0,
{
    assert(entry_ok(descs[i]));
    lemma_metadata_fields_well_formed(descs[i]->Some_0);
    assert(m.plugins@[i]@ == entry_view(descs[i]));
}

/// Whether no two of the converted plugins share an `id`.
fn ids_unique(plugins: &Vec<PluginMetadata>) -> (r: bool)
    ensures
        r == plugin_ids_unique(plugins@),
{
    let n = plugins.len();
    let mut i: usize = 0;
    while i < n
        invariant
            n == plugins@.len(),
            0 <= i <= n,
            forall|a: int, b: int|
                0 <= a < b < n && a < i ==> plugins@[a]@.id != plugins@[b]@.id,
        decreases n - i,
    {
        let mut j: usize = i + 1;
        while j < n
            invariant
                n == plugins@.len(),
                0 <= i < j <= n,
                forall|a: int, b: int|
                    0 <= a < b < n && a < i ==> plugins@[a]@.id != plugins@[b]@.id,
                forall|b: int| i < b < j ==> plugins@[i as int]@.id != plugins@[b]@.id,
            decreases n - j,
        {
            if plugins[i].id == plugins[j].id {
                proof {
                    assert(plugins@[i as int]@.id == plugins@[j as int]@.id);
                    assert(!plugin_ids_unique(plugins@));
                }
                return false;
            }
            j += 1;
        }
        i += 1;
    }
    true
}

/// Extract the metadata of a whole library from the entry point's version
/// record and the factory snapshot the embedding program read. The
/// contract is [`spec_metadata_result`].
pub fn extract_metadata(version: ClapVersion, factory: Option<&PluginFactorySnapshot>) -> (r:
    Result<PluginLibraryMetadata, LibraryError>)
    ensures
        spec_metadata_result(version, snapshot_view(factory), r),
{
    match factory {
        None => Err(
            LibraryError::FactoryUnsupported {
                factory_id: String::from_str(plugin_factory_id()),
            },
        ),
        Some(snap) => {
            let mut plugins: Vec<PluginMetadata> = Vec::new();
            let mut i: usize = 0;
            while i < snap.descriptors.len()
                invariant
                    factory == Some(snap),
                    0 <= i <= snap.descriptors@.len(),
                    plugins@.len() == i,
                    forall|j: int| 0 <= j < i ==> entry_ok(snap.descriptors@[j]),
                    forall|j: int|
                        0 <= j < i ==> plugins@[j]@ == entry_view(snap.descriptors@[j]),
                decreases snap.descriptors@.len() - i,
            {
                match &snap.descriptors[i] {
                    None => {
                        return Err(
                            LibraryError::MalformedDescriptor {
                                index: i,
                                issue: DescriptorIssue::NullDescriptor,
                            },
                        );
                    },
                    Some(d) => match PluginMetadata::from_descriptor(d) {
                        Ok(m) => {
                            plugins.push(m);
                        },
                        Err(err) => {
                            return Err(
                                LibraryError::MalformedDescriptor {
                                    index: i,
                                    issue: DescriptorIssue::Conversion { error: err },
                                },
                            );
                        },
                    },
                }
                i += 1;
            }
            if !ids_unique(&plugins) {
                proof {
                    assert(exists|a: int, b: int|
                        0 <= a < b < plugins@.len() && plugins@[a]@.id == plugins@[b]@.id);
                    let (a, b) = choose|a: int, b: int|
                        0 <= a < b < plugins@.len() && plugins@[a]@.id == plugins@[b]@.id;
                    assert(entry_view(snap.descriptors@[a]).id == entry_view(
                        snap.descriptors@[b],
                    ).id);
                    assert(!entry_ids_unique(snap.descriptors@));
                }
                return Err(LibraryError::DuplicatePluginId);
            }
            proof {
                assert(plugin_ids_unique(plugins@));
                assert forall|a: int, b: int|
                    0 <= a < b < snap.descriptors@.len() implies entry_view(
                    snap.descriptors@[a],
                ).id != entry_view(snap.descriptors@[b]).id by {
                    assert(plugins@[a]@ == entry_view(snap.descriptors@[a]));
                    assert(plugins@[b]@ == entry_view(snap.descriptors@[b]));
                    assert(plugins@[a]@.id != plugins@[b]@.id);
                }
                assert(entry_ids_unique(snap.descriptors@));
            }
            Ok(PluginLibraryMetadata { version: version.triple(), plugins })
        },
    }
}

} // verus!
