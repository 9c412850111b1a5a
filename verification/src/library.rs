//! The plugin library lifecycle and factory dispatch.
//!
//! Loading follows a fixed protocol whose outside steps — opening the
//! module, resolving the entry symbol, calling the entry point — are
//! performed by the embedding program, while every decision is made here.
//! The protocol's stages are values: a [`LoadRequest`] (a validated,
//! anchored path), an [`InitRequest`] (a resolved, non-null entry point
//! whose `init` is about to be called once), and finally a
//! [`PluginLibrary`], which exists only after `init` has returned success
//! and whose teardown is the only path to `deinit`. Each stage is consumed
//! by the step that leaves it, so no step can run twice.

use vstd::prelude::*;
use vstd::string::StringExecFns;

use crate::error::{EntryIssue, LibraryError};
use crate::metadata::{
    extract_metadata, snapshot_view, spec_metadata_result, PluginFactorySnapshot,
    PluginLibraryMetadata,
};
use crate::path::{
    contains_nul, path_representable, resolve_path, spec_path_error, spec_resolved_path,
    NativePath,
};
use crate::version::ClapVersion;

verus! {

/// The fixed identifier of the mandatory plugin factory.
pub open spec fn spec_plugin_factory_id() -> Seq<char> {
    "clap.plugin-factory"@
}

/// The fixed identifier of the optional preset discovery factory.
pub open spec fn spec_preset_discovery_factory_id() -> Seq<char> {
    "clap.preset-discovery-factory/2"@
}

/// The fixed identifier of the mandatory plugin factory.
pub fn plugin_factory_id() -> (r: &'static str)
    ensures
        r@ == spec_plugin_factory_id(),
{
    "clap.plugin-factory"
}

/// The fixed identifier of the optional preset discovery factory.
pub fn preset_discovery_factory_id() -> (r: &'static str)
    ensures
        r@ == spec_preset_discovery_factory_id(),
{
    "clap.preset-discovery-factory/2"
}

/// The three states of a loaded module's lifecycle. A module starts
/// unloaded; a successful `init` call makes it initialized, exactly once;
/// tearing it down makes it deinitialized, exactly once, and is terminal.
/// The pre-init stages of the protocol ([`LoadRequest`], [`InitRequest`])
/// stand for the unloaded state; a [`PluginLibrary`] is never unloaded.
#[derive(Clone, Copy, Debug, PartialEq, Eq, Structural)]
pub enum LifecycleState {
    Unloaded,
    Initialized,
    Deinitialized,
}

/// What the embedding program found when it opened the module and looked
/// up the well-known entry symbol.
#[derive(Debug)]
pub enum EntryOutcome {
    /// The dynamic loader failed to open the module; `reason` is the
    /// loader's own message.
    OpenFailed { reason: String },
    /// The module exports no entry symbol.
    SymbolAbsent,
    /// The entry symbol resolves to a null pointer.
    SymbolNull,
    /// The entry point is usable and reports this version record.
    EntryFound { version: ClapVersion },
}

/// A validated load request: an anchored module path, free of embedded
/// null bytes. The next step is to open the module at this path and
/// resolve its entry symbol.
#[derive(Debug)]
pub struct LoadRequest {
    resolved_path: String,
}

impl LoadRequest {
    /// The anchored path the module is to be loaded from.
    pub closed spec fn spec_path(&self) -> Seq<char> {
        self.resolved_path@
    }

    /// Resolve a user-supplied path against the working directory into a
    /// load request. Fails exactly when the pair has no Unicode
    /// representation or the anchored path holds an embedded null byte.
    pub fn resolve(cwd: &NativePath, user_path: &NativePath) -> (r: Result<
        LoadRequest,
        LibraryError,
    >)
        ensures
            match r {
                Ok(req) => {
                    &&& path_representable(*cwd, *user_path)
                    &&& req.spec_path() == spec_resolved_path(*cwd, *user_path)
                    &&& !req.spec_path().contains('\0')
                },
                Err(e) => {
                    &&& !path_representable(*cwd, *user_path) || spec_resolved_path(
                        *cwd,
                        *user_path,
                    ).contains('\0')
                    &&& e == spec_path_error(*cwd, *user_path)
                },
            },
    {
        let resolved_path = resolve_path(cwd, user_path)?;
        Ok(LoadRequest { resolved_path })
    }

    /// The anchored path, as handed to the dynamic loader and later to the
    /// entry point's `init`.
    pub fn resolved_path(&self) -> (p: &String)
        ensures
            p@ == self.spec_path(),
    {
        &self.resolved_path
    }

    /// Consume the outcome of opening the module and resolving its entry
    /// symbol. An open failure or an absent or null symbol is terminal; a
    /// usable entry point advances the protocol to the `init` call.
    pub fn entry_resolved(self, outcome: EntryOutcome) -> (r: Result<InitRequest, LibraryError>)
        ensures
            match outcome {
                EntryOutcome::OpenFailed { reason } => r matches Err(e) && e == (
                LibraryError::LoadError { reason }),
                EntryOutcome::SymbolAbsent => r matches Err(e) && e == (
                LibraryError::MissingEntryPoint { issue: EntryIssue::SymbolAbsent }),
                EntryOutcome::SymbolNull => r matches Err(e) && e == (
                LibraryError::MissingEntryPoint { issue: EntryIssue::SymbolNull }),
                EntryOutcome::EntryFound { version } => r matches Ok(init) && init.spec_path()
                    == self.spec_path() && init.spec_version() == version,
            },
    {
        match outcome {
            EntryOutcome::OpenFailed { reason } => Err(LibraryError::LoadError { reason }),
            EntryOutcome::SymbolAbsent => Err(
                LibraryError::MissingEntryPoint { issue: EntryIssue::SymbolAbsent },
            ),
            EntryOutcome::SymbolNull => Err(
                LibraryError::MissingEntryPoint { issue: EntryIssue::SymbolNull },
            ),
            EntryOutcome::EntryFound { version } => Ok(
                InitRequest { resolved_path: self.resolved_path, version },
            ),
        }
    }
}

/// A resolved, non-null entry point whose `init` is about to be called,
/// exactly once, with the anchored path as a null-terminated string.
#[derive(Debug)]
pub struct InitRequest {
    resolved_path: String,
    version: ClapVersion,
}

impl InitRequest {
    /// The anchored path to pass to `init`.
    pub closed spec fn spec_path(&self) -> Seq<char> {
        self.resolved_path@
    }

    /// The entry point's version record.
    pub closed spec fn spec_version(&self) -> ClapVersion {
        self.version
    }

    /// The anchored path to pass to `init`.
    pub fn resolved_path(&self) -> (p: &String)
        ensures
            p@ == self.spec_path(),
    {
        &self.resolved_path
    }

    /// The entry point's version record.
    pub fn version(&self) -> (v: ClapVersion)
        ensures
            v == self.spec_version(),
    {
        self.version
    }

    /// Consume the result of the one `init` call. Failure is terminal for
    /// the whole load — the module is to be unloaded and no library value
    /// exists. Success yields the library, initialized, with exactly one
    /// init call on record and its deinit still owed.
    pub fn init_returned(self, succeeded: bool) -> (r: Result<PluginLibrary, LibraryError>)
        ensures
            succeeded ==> (r matches Ok(lib) && lib.wf() && lib.spec_state()
                is Initialized && lib.spec_path() == self.spec_path() && lib.spec_version()
                == self.spec_version()),
            !succeeded ==> (r matches Err(e) && e matches LibraryError::InitFailed { path }
                && path@ == self.spec_path()),
    {
        if succeeded {
            Ok(
                PluginLibrary {
                    plugin_path: self.resolved_path,
                    clap_version: self.version,
                    state: LifecycleState::Initialized,
                    init_calls: Ghost(1nat),
                    deinit_calls: Ghost(0nat),
                },
            )
        } else {
            Err(LibraryError::InitFailed { path: self.resolved_path })
        }
    }
}

/// A loaded plugin library: the anchored path it was loaded from and the
/// validated entry point's version record. A value of this type exists
/// only between a successful `init` and the one `deinit`; it cannot be
/// built any other way.
pub struct PluginLibrary {
    plugin_path: String,
    clap_version: ClapVersion,
    state: LifecycleState,
    init_calls: Ghost<nat>,
    deinit_calls: Ghost<nat>,
}

/// A created, not yet activated plugin instance, identified by the plugin
/// `id` it was created for. The raw handle and its teardown live with the
/// embedding program, which must tear the instance down before the
/// library's `deinit` — there, the instance borrows the library for its
/// whole life, so the library cannot be torn down first.
#[derive(Debug)]
pub struct Plugin {
    plugin_id: String,
}

impl Plugin {
    /// The `id` the plugin was created for.
    pub closed spec fn spec_id(&self) -> Seq<char> {
        self.plugin_id@
    }

    /// The `id` the plugin was created for.
    pub fn plugin_id(&self) -> (id: &String)
        ensures
            id@ == self.spec_id(),
    {
        &self.plugin_id
    }
}

/// A validated plugin creation request: the plugin factory is present and
/// the requested `id` is free of embedded null bytes. The next step is the
/// factory's create call with this `id` and the caller's host context.
#[derive(Debug)]
pub struct CreatePluginRequest {
    plugin_id: String,
}

impl CreatePluginRequest {
    /// The requested plugin `id`.
    pub closed spec fn spec_id(&self) -> Seq<char> {
        self.plugin_id@
    }

    /// The requested plugin `id`, to pass to the factory's create call.
    pub fn plugin_id(&self) -> (id: &String)
        ensures
            id@ == self.spec_id(),
    {
        &self.plugin_id
    }

    /// Consume the result of the factory's create call: null means the
    /// factory cannot create this `id`, which is terminal and yields no
    /// plugin value; otherwise the created plugin is returned, not yet
    /// activated.
    pub fn created(self, succeeded: bool) -> (r: Result<Plugin, LibraryError>)
        ensures
            succeeded ==> (r matches Ok(p) && p.spec_id() == self.spec_id()),
            !succeeded ==> (r matches Err(e) && e matches LibraryError::InstantiationFailed {
                plugin_id,
            } && plugin_id@ == self.spec_id()),
    {
        if succeeded {
            Ok(Plugin { plugin_id: self.plugin_id })
        } else {
            Err(LibraryError::InstantiationFailed { plugin_id: self.plugin_id })
        }
    }
}

/// The optional preset discovery factory, present on some libraries. Only
/// its presence is consumed here; its contents belong to an outside
/// collaborator.
#[derive(Debug)]
pub struct PresetDiscoveryFactory {
    factory_id: String,
}

impl PresetDiscoveryFactory {
    /// The identifier the factory was obtained under.
    pub closed spec fn spec_factory_id(&self) -> Seq<char> {
        self.factory_id@
    }

    /// The identifier the factory was obtained under.
    pub fn factory_id(&self) -> (id: &String)
        ensures
            id@ == self.spec_factory_id(),
    {
        &self.factory_id
    }
}

impl PluginLibrary {
    /// The anchored path the library was loaded from.
    pub closed spec fn spec_path(&self) -> Seq<char> {
        self.plugin_path@
    }

    /// The entry point's version record.
    pub closed spec fn spec_version(&self) -> ClapVersion {
        self.clap_version
    }

    /// Where the library stands in its lifecycle.
    pub closed spec fn spec_state(&self) -> LifecycleState {
        self.state
    }

    /// How many `init` calls the protocol has issued for this library.
    pub closed spec fn spec_init_calls(&self) -> nat {
        self.init_calls@
    }

    /// How many `deinit` calls the protocol has issued for this library.
    pub closed spec fn spec_deinit_calls(&self) -> nat {
        self.deinit_calls@
    }

    /// The lifecycle invariant: a library value is never unloaded, records
    /// exactly one `init` call, and records its one `deinit` call exactly
    /// when it has been deinitialized.
    pub open spec fn wf(&self) -> bool {
        &&& !(self.spec_state() is Unloaded)
        &&& self.spec_init_calls() == 1
        &&& self.spec_deinit_calls() == (
        if self.spec_state() is Deinitialized {
            1nat
        } else {
            0nat
        })
    }

    /// The anchored path the library was loaded from.
    pub fn plugin_path(&self) -> (p: &String)
        ensures
            p@ == self.spec_path(),
    {
        &self.plugin_path
    }

    /// Where the library stands in its lifecycle.
    pub fn lifecycle_state(&self) -> (s: LifecycleState)
        ensures
            s == self.spec_state(),
    {
        self.state
    }

    /// The entry point's version record.
    pub fn entry_version(&self) -> (v: ClapVersion)
        ensures
            v == self.spec_version(),
    {
        self.clap_version
    }

    /// The metadata for all plugins in this library, extracted from the
    /// factory snapshot the embedding program read; the plugin factory is
    /// mandatory here, so its absence is an error. The contract is
    /// [`spec_metadata_result`] with this library's version record.
    pub fn metadata(&self, plugin_factory: Option<&PluginFactorySnapshot>) -> (r: Result<
        PluginLibraryMetadata,
        LibraryError,
    >)
        requires
            self.wf(),
            self.spec_state() is Initialized,
        ensures
            spec_metadata_result(self.spec_version(), snapshot_view(plugin_factory), r),
    {
        extract_metadata(self.entry_version(), plugin_factory)
    }

    /// Whether a factory with the given identifier exists: exactly the
    /// outcome of the entry point's lookup, where `found` says whether the
    /// returned pointer was non-null — absence is a normal outcome, not an
    /// error, and never turns into a different factory. The identifier
    /// must be free of embedded null bytes to cross the C boundary.
    pub fn factory_exists(&self, factory_id: &String, found: bool) -> (r: bool)
        requires
            self.wf(),
            self.spec_state() is Initialized,
            !factory_id@.contains('\0'),
        ensures
            r == found,
    {
        found
    }

    /// Validate a plugin creation: the plugin factory must be present and
    /// the requested `id` must be free of embedded null bytes; then the
    /// factory's create call may be made with the returned request.
    pub fn create_plugin(&self, id: &String, plugin_factory_present: bool) -> (r: Result<
        CreatePluginRequest,
        LibraryError,
    >)
        requires
            self.wf(),
            self.spec_state() is Initialized,
        ensures
            match r {
                Ok(req) => plugin_factory_present && !id@.contains('\0') && req.spec_id() == id@,
                Err(e) => {
                    ||| {
                        &&& !plugin_factory_present
                        &&& e matches LibraryError::FactoryUnsupported { factory_id }
                        &&& factory_id@ == spec_plugin_factory_id()
                    }
                    ||| {
                        &&& plugin_factory_present
                        &&& id@.contains('\0')
                        &&& e matches LibraryError::InvalidPluginId { plugin_id }
                        &&& plugin_id@ == id@
                    }
                },
            },
    {
        if !plugin_factory_present {
            return Err(
                LibraryError::FactoryUnsupported {
                    factory_id: String::from_str(plugin_factory_id()),
                },
            );
        }
        if contains_nul(id.as_str()) {
            return Err(LibraryError::InvalidPluginId { plugin_id: id.clone() });
        }
        Ok(CreatePluginRequest { plugin_id: id.clone() })
    }

    /// The preset discovery factory, if the entry point's lookup found
    /// one; `found` says whether the returned pointer was non-null. Unlike
    /// the plugin factory elsewhere, absence here is reported with this
    /// factory's own identifier and is the expected outcome for libraries
    /// without preset support.
    pub fn preset_discovery_factory(&self, found: bool) -> (r: Result<
        PresetDiscoveryFactory,
        LibraryError,
    >)
        requires
            self.wf(),
            self.spec_state() is Initialized,
        ensures
            match r {
                Ok(f) => found && f.spec_factory_id() == spec_preset_discovery_factory_id(),
                Err(e) => {
                    &&& !found
                    &&& e matches LibraryError::FactoryUnsupported { factory_id }
                    &&& factory_id@ == spec_preset_discovery_factory_id()
                },
            },
    {
        if found {
            Ok(
                PresetDiscoveryFactory {
                    factory_id: String::from_str(preset_discovery_factory_id()),
                },
            )
        } else {
            Err(
                LibraryError::FactoryUnsupported {
                    factory_id: String::from_str(preset_discovery_factory_id()),
                },
            )
        }
    }

    /// Record the one `deinit` call, as the embedding program tears the
    /// library down. Requires a live, initialized library — so it can
    /// never run before `init` succeeded, nor twice — and leaves the
    /// library deinitialized, which is terminal.
    pub fn deinitialize(&mut self)
        requires
            old(self).wf(),
            old(self).spec_state() is Initialized,
        ensures
            final(self).wf(),
            final(self).spec_state() is Deinitialized,
            final(self).spec_path() == old(self).spec_path(),
            final(self).spec_version() == old(self).spec_version(),
            final(self).spec_init_calls() == old(self).spec_init_calls(),
            final(self).spec_deinit_calls() == old(self).spec_deinit_calls() + 1,
    {
        self.state = LifecycleState::Deinitialized;
        self.deinit_calls = Ghost(self.deinit_calls@ + 1);
    }
}

/// The lifecycle protocol's counting law: any well-formed library records
/// exactly one `init` call, however it is observed; it records no `deinit`
/// call while it is initialized, and exactly one once it is
/// deinitialized — `deinit` happens exactly once, and `init` is never
/// issued again after it succeeded.
pub proof fn lemma_lifecycle_counts(lib: PluginLibrary)
    requires
        lib.wf(),
    ensures
        lib.spec_init_calls() == 1,
        lib.spec_state() is Initialized ==> lib.spec_deinit_calls() == 0,
        lib.spec_state() is Deinitialized ==> lib.spec_deinit_calls() == 1,
{
}

} // verus!
