use clap_library::descriptor::{PluginMetadata, RawCString, RawDescriptor};
use clap_library::error::{
    DescriptorError, DescriptorField, DescriptorIssue, LibraryError,
};
use clap_library::library::{EntryOutcome, LoadRequest, PluginLibrary};
use clap_library::metadata::PluginFactorySnapshot;
use clap_library::path::NativePath;
use clap_library::version::ClapVersion;

fn load_library(version: ClapVersion) -> PluginLibrary {
    let req = LoadRequest::resolve(
        &NativePath::Text("/home/user".to_string()),
        &NativePath::Text("synth.clap".to_string()),
    )
    .unwrap();
    let init = req
        .entry_resolved(EntryOutcome::EntryFound { version })
        .unwrap();
    init.init_returned(true).unwrap()
}

fn descriptor(id: &str, name: &str) -> RawDescriptor {
    RawDescriptor {
        id: RawCString::Text(id.to_string()),
        name: RawCString::Text(name.to_string()),
        version: RawCString::Null,
        vendor: RawCString::Null,
        description: RawCString::Null,
        manual_url: RawCString::Null,
        support_url: RawCString::Null,
        features: Some(Vec::new()),
    }
}

#[test]
fn empty_vendor_string_is_normalized_to_absent() {
    let lib = load_library(ClapVersion { major: 1, minor: 2, revision: 2 });
    let mut desc = descriptor("com.example.synth", "Synth");
    desc.vendor = RawCString::Text("".to_string());
    let snapshot = PluginFactorySnapshot { descriptors: vec![Some(desc)] };

    let metadata = lib.metadata(Some(&snapshot)).unwrap();
    assert_eq!(metadata.plugins.len(), 1);
    let plugin = &metadata.plugins[0];
    assert_eq!(plugin.id, "com.example.synth");
    assert_eq!(plugin.name, "Synth");
    assert_eq!(plugin.vendor, None);
}

#[test]
fn optional_fields_are_absent_or_non_empty() {
    let mut desc = descriptor("com.example.synth", "Synth");
    desc.version = RawCString::Text("1.0.0".to_string());
    desc.description = RawCString::Text("".to_string());
    desc.manual_url = RawCString::Null;
    desc.support_url = RawCString::Text("https://example.com".to_string());

    let m = PluginMetadata::from_descriptor(&desc).unwrap();
    assert_eq!(m.version, Some("1.0.0".to_string()));
    assert_eq!(m.description, None);
    assert_eq!(m.manual_url, None);
    assert_eq!(m.support_url, Some("https://example.com".to_string()));
    assert!(!m.id.is_empty());
    assert!(!m.name.is_empty());
}

#[test]
fn feature_tags_keep_their_order() {
    let mut desc = descriptor("com.example.synth", "Synth");
    desc.features = Some(vec![
        RawCString::Text("instrument".to_string()),
        RawCString::Text("synthesizer".to_string()),
        RawCString::Text("stereo".to_string()),
    ]);
    let m = PluginMetadata::from_descriptor(&desc).unwrap();
    assert_eq!(
        m.features,
        vec![
            "instrument".to_string(),
            "synthesizer".to_string(),
            "stereo".to_string()
        ]
    );
}

#[test]
fn null_id_fails_with_missing_field() {
    let mut desc = descriptor("com.example.synth", "Synth");
    desc.id = RawCString::Null;
    let e = PluginMetadata::from_descriptor(&desc).unwrap_err();
    assert_eq!(e, DescriptorError::MissingField { field: DescriptorField::Id });
}

#[test]
fn empty_name_fails_with_missing_field() {
    let mut desc = descriptor("com.example.synth", "Synth");
    desc.name = RawCString::Text("".to_string());
    let e = PluginMetadata::from_descriptor(&desc).unwrap_err();
    assert_eq!(e, DescriptorError::MissingField { field: DescriptorField::Name });
}

#[test]
fn unreadable_id_fails_with_invalid_text() {
    let mut desc = descriptor("com.example.synth", "Synth");
    desc.id = RawCString::NotText;
    let e = PluginMetadata::from_descriptor(&desc).unwrap_err();
    assert_eq!(e, DescriptorError::InvalidText { field: DescriptorField::Id });
}

#[test]
fn unreadable_vendor_fails_with_invalid_text() {
    let mut desc = descriptor("com.example.synth", "Synth");
    desc.vendor = RawCString::NotText;
    let e = PluginMetadata::from_descriptor(&desc).unwrap_err();
    assert_eq!(e, DescriptorError::InvalidText { field: DescriptorField::Vendor });
}

#[test]
fn missing_feature_array_fails_as_malformed() {
    let mut desc = descriptor("com.example.synth", "Synth");
    desc.features = None;
    let e = PluginMetadata::from_descriptor(&desc).unwrap_err();
    assert_eq!(e, DescriptorError::MalformedFeatures);
}

#[test]
fn unreadable_feature_tag_fails_as_malformed() {
    let mut desc = descriptor("com.example.synth", "Synth");
    desc.features = Some(vec![
        RawCString::Text("instrument".to_string()),
        RawCString::NotText,
    ]);
    let e = PluginMetadata::from_descriptor(&desc).unwrap_err();
    assert_eq!(e, DescriptorError::MalformedFeatures);
}

#[test]
fn missing_plugin_factory_fails_extraction() {
    let lib = load_library(ClapVersion { major: 1, minor: 2, revision: 2 });
    let r = lib.metadata(None);
    assert_eq!(
        r.unwrap_err(),
        LibraryError::FactoryUnsupported { factory_id: "clap.plugin-factory".to_string() }
    );
}

#[test]
fn null_descriptor_aborts_extraction_at_its_index() {
    let lib = load_library(ClapVersion { major: 1, minor: 2, revision: 2 });
    let snapshot = PluginFactorySnapshot {
        descriptors: vec![Some(descriptor("com.example.synth", "Synth")), None],
    };
    let r = lib.metadata(Some(&snapshot));
    assert_eq!(
        r.unwrap_err(),
        LibraryError::MalformedDescriptor {
            index: 1,
            issue: DescriptorIssue::NullDescriptor
        }
    );
}

#[test]
fn bad_descriptor_aborts_extraction_with_its_field_error() {
    let lib = load_library(ClapVersion { major: 1, minor: 2, revision: 2 });
    let mut bad = descriptor("com.example.reverb", "Reverb");
    bad.name = RawCString::Null;
    let snapshot = PluginFactorySnapshot {
        descriptors: vec![Some(descriptor("com.example.synth", "Synth")), Some(bad)],
    };
    let r = lib.metadata(Some(&snapshot));
    assert_eq!(
        r.unwrap_err(),
        LibraryError::MalformedDescriptor {
            index: 1,
            issue: DescriptorIssue::Conversion {
                error: DescriptorError::MissingField { field: DescriptorField::Name }
            }
        }
    );
}

#[test]
fn duplicate_plugin_ids_fail_with_duplicate_plugin_id() {
    let lib = load_library(ClapVersion { major: 1, minor: 2, revision: 2 });
    let snapshot = PluginFactorySnapshot {
        descriptors: vec![
            Some(descriptor("com.example.synth", "Synth One")),
            Some(descriptor("com.example.other", "Other")),
            Some(descriptor("com.example.synth", "Synth Two")),
        ],
    };
    let r = lib.metadata(Some(&snapshot));
    assert_eq!(r.unwrap_err(), LibraryError::DuplicatePluginId);
}

#[test]
fn extraction_reports_the_entry_point_version() {
    let lib = load_library(ClapVersion { major: 1, minor: 2, revision: 2 });
    let snapshot = PluginFactorySnapshot {
        descriptors: vec![Some(descriptor("com.example.synth", "Synth"))],
    };
    let metadata = lib.metadata(Some(&snapshot)).unwrap();
    assert_eq!(metadata.version, (1, 2, 2));
}

#[test]
fn version_triple_round_trips_through_the_wire_record() {
    let lib = load_library(ClapVersion { major: 7, minor: 3, revision: 9 });
    let snapshot = PluginFactorySnapshot {
        descriptors: vec![Some(descriptor("com.example.synth", "Synth"))],
    };
    let metadata = lib.metadata(Some(&snapshot)).unwrap();
    assert_eq!(metadata.version, (7, 3, 9));

    let record = metadata.clap_version();
    assert_eq!(record, ClapVersion { major: 7, minor: 3, revision: 9 });
    assert_eq!(record.triple(), metadata.version);
    assert_eq!(ClapVersion::from_triple(record.triple()), record);
}

#[test]
fn empty_factory_yields_empty_metadata() {
    let lib = load_library(ClapVersion { major: 1, minor: 2, revision: 2 });
    let snapshot = PluginFactorySnapshot { descriptors: Vec::new() };
    let metadata = lib.metadata(Some(&snapshot)).unwrap();
    assert_eq!(metadata.plugins.len(), 0);
    assert_eq!(metadata.version, (1, 2, 2));
}
