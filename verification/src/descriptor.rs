//! Conversion of one raw plugin descriptor into structured metadata.
//!
//! A descriptor reaches this crate as a record of raw C-string fields, each
//! read at the FFI boundary as either a null pointer, text, or bytes with no
//! text representation. Conversion is declarative per field: `id` and `name`
//! are mandatory (null, unreadable or empty fails the descriptor), the other
//! string fields are optional (null or empty is normalized to absent,
//! unreadable text fails), and `features` is an ordered array whose every
//! element must be text.

use vstd::prelude::*;

use crate::error::{DescriptorError, DescriptorField};

verus! {

/// A C-string field as read at the FFI boundary.
#[derive(Clone, Debug, PartialEq, Eq)]
pub enum RawCString {
    /// The field's pointer is null.
    Null,
    /// The field points at bytes that are not valid text.
    NotText,
    /// The field's text.
    Text(String),
}

/// One plugin descriptor as read at the FFI boundary, before any field has
/// been validated. `features` is `None` when the descriptor's feature-array
/// pointer itself is null.
#[derive(Clone, Debug, PartialEq, Eq)]
pub struct RawDescriptor {
    pub id: RawCString,
    pub name: RawCString,
    pub version: RawCString,
    pub vendor: RawCString,
    pub description: RawCString,
    pub manual_url: RawCString,
    pub support_url: RawCString,
    pub features: Option<Vec<RawCString>>,
}

/// Validated metadata for a single plugin within a plugin library. Optional
/// fields are `None` when the descriptor reported them as null or empty;
/// a present optional field is never empty.
#[derive(Debug, PartialEq, Eq)]
pub struct PluginMetadata {
    pub id: String,
    pub name: String,
    pub version: Option<String>,
    pub vendor: Option<String>,
    pub description: Option<String>,
    pub manual_url: Option<String>,
    pub support_url: Option<String>,
    pub features: Vec<String>,
}

/// The mathematical value of a [`PluginMetadata`]: every string as a
/// sequence of characters.
pub struct PluginMetadataView {
    pub id: Seq<char>,
    pub name: Seq<char>,
    pub version: Option<Seq<char>>,
    pub vendor: Option<Seq<char>>,
    pub description: Option<Seq<char>>,
    pub manual_url: Option<Seq<char>>,
    pub support_url: Option<Seq<char>>,
    pub features: Seq<Seq<char>>,
}

/// The view of an optional owned string.
pub open spec fn opt_view(o: Option<String>) -> Option<Seq<char>> {
    match o {
        Option::None => Option::None,
        Option::Some(s) => Option::Some(s@),
    }
}

/// The views of a sequence of owned strings, in order.
pub open spec fn strings_view(s: Seq<String>) -> Seq<Seq<char>> {
    s.map_values(|x: String| x@)
}

impl View for PluginMetadata {
    type V = PluginMetadataView;

    open spec fn view(&self) -> PluginMetadataView {
        PluginMetadataView {
            id: self.id@,
            name: self.name@,
            version: opt_view(self.version),
            vendor: opt_view(self.vendor),
            description: opt_view(self.description),
            manual_url: opt_view(self.manual_url),
            support_url: opt_view(self.support_url),
            features: strings_view(self.features@),
        }
    }
}

/// Whether a mandatory field is usable: it must be text and non-empty.
pub open spec fn mandatory_present(f: RawCString) -> bool {
    f matches RawCString::Text(s) && s@.len() > 0
}

/// The text of a usable mandatory field.
pub open spec fn text_view(f: RawCString) -> Seq<char>
    recommends
        f is Text,
{
    f->Text_0@
}

/// The error a mandatory field fails with: unreadable bytes are a text
/// error, a null or empty field counts as missing.
pub open spec fn mandatory_error(f: RawCString, field: DescriptorField) -> DescriptorError
    recommends
        !mandatory_present(f),
{
    if f is NotText {
        DescriptorError::InvalidText { field }
    } else {
        DescriptorError::MissingField { field }
    }
}

/// Whether an optional field converts at all; only unreadable bytes fail.
pub open spec fn optional_ok(f: RawCString) -> bool {
    !(f is NotText)
}

/// The value of an optional field: null and empty are both absent.
pub open spec fn optional_view(f: RawCString) -> Option<Seq<char>>
    recommends
        optional_ok(f),
{
    match f {
        RawCString::Text(s) => if s@.len() == 0 {
            Option::None
        } else {
            Option::Some(s@)
        },
        _ => Option::None,
    }
}

/// Whether the feature array converts: it must be present and every element
/// must be text.
pub open spec fn features_ok(features: Option<Vec<RawCString>>) -> bool {
    features matches Some(v) && (forall|i: int| 0 <= i < v@.len() ==> v@[i] is Text)
}

/// The ordered feature tags of a well-formed feature array.
pub open spec fn features_view(features: Option<Vec<RawCString>>) -> Seq<Seq<char>>
    recommends
        features_ok(features),
{
    match features {
        Option::Some(v) => v@.map_values(|f: RawCString| text_view(f)),
        Option::None => Seq::empty(),
    }
}

/// Whether a whole descriptor converts into metadata.
pub open spec fn descriptor_ok(d: RawDescriptor) -> bool {
    &&& mandatory_present(d.id)
    &&& mandatory_present(d.name)
    &&& optional_ok(d.version)
    &&& optional_ok(d.vendor)
    &&& optional_ok(d.description)
    &&& optional_ok(d.manual_url)
    &&& optional_ok(d.support_url)
    &&& features_ok(d.features)
}

/// The error a failing descriptor converts to: the first failing field in
/// declaration order, then the feature array.
pub open spec fn descriptor_error(d: RawDescriptor) -> DescriptorError
    recommends
        !descriptor_ok(d),
{
    if !mandatory_present(d.id) {
        mandatory_error(d.id, DescriptorField::Id)
    } else if !mandatory_present(d.name) {
        mandatory_error(d.name, DescriptorField::Name)
    } else if !optional_ok(d.version) {
        DescriptorError::InvalidText { field: DescriptorField::Version }
    } else if !optional_ok(d.vendor) {
        DescriptorError::InvalidText { field: DescriptorField::Vendor }
    } else if !optional_ok(d.description) {
        DescriptorError::InvalidText { field: DescriptorField::Description }
    } else if !optional_ok(d.manual_url) {
        DescriptorError::InvalidText { field: DescriptorField::ManualUrl }
    } else if !optional_ok(d.support_url) {
        DescriptorError::InvalidText { field: DescriptorField::SupportUrl }
    } else {
        DescriptorError::MalformedFeatures
    }
}

/// The metadata value of a well-formed descriptor.
pub open spec fn descriptor_metadata_view(d: RawDescriptor) -> PluginMetadataView
    recommends
        descriptor_ok(d),
{
    PluginMetadataView {
        id: mandatory_view(d.id),
        name: mandatory_view(d.name),
        version: optional_view(d.version),
        vendor: optional_view(d.vendor),
        description: optional_view(d.description),
        manual_url: optional_view(d.manual_url),
        support_url: optional_view(d.support_url),
        features: features_view(d.features),
    }
}

/// The text of a usable mandatory field (same as [`text_view`], under its
/// role as the converted value).
pub open spec fn mandatory_view(f: RawCString) -> Seq<char>
    recommends
        mandatory_present(f),
{
    text_view(f)
}

/// Convert a mandatory field: null, unreadable or empty fails.
fn convert_mandatory(f: &RawCString, field: DescriptorField) -> (r: Result<
    String,
    DescriptorError,
>)
    ensures
        match r {
            Ok(s) => mandatory_present(*f) && s@ == mandatory_view(*f),
            Err(e) => !mandatory_present(*f) && e == mandatory_error(*f, field),
        },
{
    match f {
        RawCString::Null => Err(DescriptorError::MissingField { field }),
        RawCString::NotText => Err(DescriptorError::InvalidText { field }),
        RawCString::Text(s) => if s.as_str().is_empty() {
            Err(DescriptorError::MissingField { field })
        } else {
            Ok(s.clone())
        },
    }
}

/// Convert an optional field: null and empty become absent, unreadable
/// bytes fail.
fn convert_optional(f: &RawCString, field: DescriptorField) -> (r: Result<
    Option<String>,
    DescriptorError,
>)
    ensures
        match r {
            Ok(o) => optional_ok(*f) && opt_view(o) == optional_view(*f),
            Err(e) => !optional_ok(*f) && e == (DescriptorError::InvalidText { field }),
        },
{
    match f {
        RawCString::Null => Ok(None),
        RawCString::NotText => Err(DescriptorError::InvalidText { field }),
        RawCString::Text(s) => if s.as_str().is_empty() {
            Ok(None)
        } else {
            Ok(Some(s.clone()))
        },
    }
}

/// Convert the feature array: a null array or a non-text element fails,
/// otherwise the tags come out in order.
fn convert_features(features: &Option<Vec<RawCString>>) -> (r: Result<
    Vec<String>,
    DescriptorError,
>)
    ensures
        match r {
            Ok(v) => features_ok(*features) && strings_view(v@) == features_view(*features),
            Err(e) => !features_ok(*features) && e == DescriptorError::MalformedFeatures,
        },
{
    match features {
        None => Err(DescriptorError::MalformedFeatures),
        Some(list) => {
            let mut out: Vec<String> = Vec::new();
            let mut i: usize = 0;
            while i < list.len()
                invariant
                    *features == Some(*list),
                    0 <= i <= list@.len(),
                    forall|j: int| 0 <= j < i ==> list@[j] is Text,
                    out@.len() == i,
                    forall|j: int| 0 <= j < i ==> out@[j]@ == text_view(list@[j]),
                decreases list@.len() - i,
            {
                match &list[i] {
                    RawCString::Text(s) => {
                        out.push(s.clone());
                    },
                    _ => {
                        proof {
                            assert(!(list@[i as int] is Text));
                            assert(!features_ok(*features));
                        }
                        return Err(DescriptorError::MalformedFeatures);
                    },
                }
                i += 1;
            }
            proof {
                assert(strings_view(out@) =~= features_view(*features));
            }
            Ok(out)
        },
    }
}

impl PluginMetadata {
    /// Convert one raw descriptor into validated metadata. Succeeds exactly
    /// when the descriptor is well formed, and then yields exactly the
    /// descriptor's field values with null and empty optional fields
    /// normalized to absent; otherwise it fails with the first failing
    /// field's error.
    pub fn from_descriptor(descriptor: &RawDescriptor) -> (r: Result<
        PluginMetadata,
        DescriptorError,
    >)
        ensures
            match r {
                Ok(m) => descriptor_ok(*descriptor) && m@ == descriptor_metadata_view(*descriptor),
                Err(e) => !descriptor_ok(*descriptor) && e == descriptor_error(*descriptor),
            },
    {
        let id = convert_mandatory(&descriptor.id, DescriptorField::Id)?;
        let name = convert_mandatory(&descriptor.name, DescriptorField::Name)?;
        let version = convert_optional(&descriptor.version, DescriptorField::Version)?;
        let vendor = convert_optional(&descriptor.vendor, DescriptorField::Vendor)?;
        let description = convert_optional(&descriptor.description, DescriptorField::Description)?;
        let manual_url = convert_optional(&descriptor.manual_url, DescriptorField::ManualUrl)?;
        let support_url = convert_optional(&descriptor.support_url, DescriptorField::SupportUrl)?;
        let features = convert_features(&descriptor.features)?;
        Ok(PluginMetadata { id, name, version, vendor, description, manual_url, support_url, features })
    }
}

/// Every metadata value extracted from a well-formed descriptor has a
/// non-empty `id` and a non-empty `name`, and each of its optional fields
/// is either absent or non-empty — never present but empty.
pub proof fn lemma_metadata_fields_well_formed(d: RawDescriptor)
    requires
        descriptor_ok(d),
    ensures
        descriptor_metadata_view(d).id.len() > 0,
        descriptor_metadata_view(d).name.len() > 0,
        descriptor_metadata_view(d).version matches Some(s) ==> s.len() > 0,
        descriptor_metadata_view(d).vendor matches Some(s) ==> s.len() > 0,
        descriptor_metadata_view(d).description matches Some(s) ==> s.len() > 0,
        descriptor_metadata_view(d).manual_url matches Some(s) ==> s.len() > 0,
        descriptor_metadata_view(d).support_url matches Some(s) ==> s.len() > 0,
{
}

} // verus!
