//! Errors of the plugin library subsystem.
//!
//! Every error is terminal for the operation it occurs in; none is retried,
//! and each carries enough context (path, field, identifier, index) to
//! diagnose the failure without re-running the operation.

use vstd::prelude::*;

verus! {

/// Why a load path could not be turned into a usable module path.
#[derive(Clone, Copy, Debug, PartialEq, Eq, Structural)]
pub enum PathIssue {
    /// The path (or the working directory it had to be anchored to) is not
    /// valid Unicode, so it cannot be represented as native text.
    NotUnicode,
    /// The resolved path contains an embedded null byte and cannot be passed
    /// across the C boundary.
    ContainsNul,
}

/// Why the module's entry symbol could not be used.
#[derive(Clone, Copy, Debug, PartialEq, Eq, Structural)]
pub enum EntryIssue {
    /// The module does not export the well-known entry symbol.
    SymbolAbsent,
    /// The entry symbol is exported but resolves to a null pointer.
    SymbolNull,
}

/// A descriptor field, named so that a conversion error can say which field
/// it is about.
#[derive(Clone, Copy, Debug, PartialEq, Eq, Structural)]
pub enum DescriptorField {
    Id,
    Name,
    Version,
    Vendor,
    Description,
    ManualUrl,
    SupportUrl,
    Features,
}

/// Why a single plugin descriptor could not be converted into metadata.
#[derive(Clone, Copy, Debug, PartialEq, Eq, Structural)]
pub enum DescriptorError {
    /// A mandatory field is null or empty.
    MissingField { field: DescriptorField },
    /// A field is present but is not valid text.
    InvalidText { field: DescriptorField },
    /// The null-terminated feature array itself is absent or malformed.
    MalformedFeatures,
}

/// Why a descriptor at a given index failed extraction.
#[derive(Clone, Copy, Debug, PartialEq, Eq, Structural)]
pub enum DescriptorIssue {
    /// The factory returned a null descriptor pointer for a valid index.
    NullDescriptor,
    /// The descriptor was present but one of its fields failed conversion.
    Conversion { error: DescriptorError },
}

/// An error of the plugin library subsystem. Each variant carries the
/// context a caller needs to diagnose it.
#[derive(Clone, Debug, PartialEq, Eq)]
pub enum LibraryError {
    /// The load path could not be resolved to native text.
    PathError { issue: PathIssue },
    /// The underlying dynamic loader failed to open the module; `reason` is
    /// the loader's own message.
    LoadError { reason: String },
    /// The entry symbol is absent or null.
    MissingEntryPoint { issue: EntryIssue },
    /// The entry point's init call returned failure for the given path.
    InitFailed { path: String },
    /// The module does not provide the factory with the given identifier.
    FactoryUnsupported { factory_id: String },
    /// The descriptor at `index` is null or failed field conversion.
    MalformedDescriptor { index: usize, issue: DescriptorIssue },
    /// Two or more descriptors reported by one library share an `id`.
    DuplicatePluginId,
    /// A plugin identifier contains an embedded null byte and cannot be
    /// passed across the C boundary.
    InvalidPluginId { plugin_id: String },
    /// The factory returned null when asked to create a plugin with the
    /// given identifier.
    InstantiationFailed { plugin_id: String },
}

} // verus!
