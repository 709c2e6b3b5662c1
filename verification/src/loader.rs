//! The extension loading protocol. A module is opened at a path, the one
//! well-known entry symbol is resolved from it and invoked with no
//! arguments, and the discriminated result either yields a fully
//! initialized extension, registered as one composite with its module
//! handle, or a typed error. Failure at any stage is atomic: the partially
//! opened handle is dropped here and nothing is handed out.
//!
//! The operating-system side of this — mapping a code image, resolving a
//! symbol by name, calling a foreign function — cannot be verified and is
//! not performed here: the host of the process implements [`ModuleHost`]
//! outside this library and this protocol drives it.

use vstd::prelude::*;

use crate::extension::LoadedExtension;

verus! {

/// Why a load failed, each stage reported distinctly; none of these ever
/// aborts the host.
pub enum LoadError {
    /// The path did not name an openable, valid dynamic module.
    LibraryOpen,
    /// The module lacks the well-known entry symbol.
    SymbolNotFound,
    /// The module's factory declined to initialize, with its own
    /// human-readable reason.
    Initialization(String),
}

/// The mathematical shape of a load error.
pub enum LoadErrorView {
    LibraryOpen,
    SymbolNotFound,
    Initialization(Seq<char>),
}

impl View for LoadError {
    type V = LoadErrorView;

    open spec fn view(&self) -> LoadErrorView {
        match self {
            LoadError::LibraryOpen => LoadErrorView::LibraryOpen,
            LoadError::SymbolNotFound => LoadErrorView::SymbolNotFound,
            LoadError::Initialization(reason) => LoadErrorView::Initialization(reason@),
        }
    }
}

/// The text reported to the requesting chat target for each load error.
pub open spec fn spec_error_text(e: LoadErrorView) -> Seq<char> {
    match e {
        LoadErrorView::LibraryOpen => "Failed to load plugin: could not open module"@,
        LoadErrorView::SymbolNotFound => "Failed to load plugin: entry symbol not found"@,
        LoadErrorView::Initialization(reason) => "Failed to load plugin: "@ + reason,
    }
}

impl LoadError {
    /// The human-readable description of this error, exactly as
    /// [`spec_error_text`] states it.
    pub fn describe(&self) -> (r: String)
        ensures
            r@ == spec_error_text(self@),
    {
        match self {
            LoadError::LibraryOpen => String::from_str("Failed to load plugin: could not open module"),
            LoadError::SymbolNotFound => String::from_str(
                "Failed to load plugin: entry symbol not found",
            ),
            LoadError::Initialization(reason) => String::from_str("Failed to load plugin: ").concat(
                reason.as_str(),
            ),
        }
    }
}

/// The first stage decision of the loading protocol: a module that
/// opened proceeds with its handle; a failed open is exactly
/// [`LoadError::LibraryOpen`].
pub fn open_stage<H>(opened: Option<H>) -> (r: Result<H, LoadError>)
    ensures
        match opened {
            Some(h) => r == Ok::<H, LoadError>(h),
            None => r == Err::<H, LoadError>(LoadError::LibraryOpen),
        },
{
    match opened {
        Some(h) => Ok(h),
        None => Err(LoadError::LibraryOpen),
    }
}

/// The second stage decision of the loading protocol: with the module
/// open, a present entry symbol hands the handle on; a missing one is
/// exactly [`LoadError::SymbolNotFound`].
pub fn entry_stage<H>(handle: H, has_symbol: bool) -> (r: Result<H, LoadError>)
    ensures
        match r {
            Ok(h) => has_symbol && h == handle,
            Err(e) => !has_symbol && e == LoadError::SymbolNotFound,
        },
{
    if has_symbol {
        Ok(handle)
    } else {
        Err(LoadError::SymbolNotFound)
    }
}

/// What invoking a module's entry symbol yielded: a ready extension
/// instance, or the module's own refusal string.
pub enum FactoryResult<E> {
    Ready(E),
    Refused(String),
}

/// The dynamic-module boundary, implemented outside this library by
/// whatever can map code images for the host process (and by fakes under
/// test). Nothing is assumed about any of these operations: the loading
/// protocol states what it does with every possible outcome.
pub trait ModuleHost {
    /// Exclusive owner of one opened code image.
    type Handle;

    /// The extension object a module's factory produces; its code lives
    /// inside the image its handle owns.
    type Inst;

    /// Opens the dynamic module at `path`, or `None` when the path does
    /// not name a loadable module.
    fn open_module(&self, path: &str) -> Option<Self::Handle>;

    /// Whether the opened module exports the well-known entry symbol.
    fn resolve_entry(&self, handle: &Self::Handle) -> bool;

    /// Invokes the module's no-argument entry symbol.
    fn invoke_entry(&self, handle: &Self::Handle) -> FactoryResult<Self::Inst>;
}

/// The fixed, host-defined name of the entry symbol every extension
/// module must export.
pub fn loader_name() -> (s: &'static str)
    ensures
        s@ == "init_plugin"@,
{
    "init_plugin"
}

/// The last step of the loading protocol: exactly how a factory outcome
/// becomes a registered composite or an initialization error. A ready
/// instance is coupled with the handle that owns its code image; a
/// refusal keeps the module's own reason and hands nothing out.
pub fn complete_load<H, E>(handle: H, outcome: FactoryResult<E>) -> (r: Result<
    LoadedExtension<H, E>,
    LoadError,
>)
    ensures
        match outcome {
            FactoryResult::Ready(e) => r matches Ok(le) && le.instance == e && le.handle == handle,
            FactoryResult::Refused(reason) => r == Err::<LoadedExtension<H, E>, LoadError>(
                LoadError::Initialization(reason),
            ),
        },
{
    match outcome {
        FactoryResult::Ready(instance) => Ok(LoadedExtension { instance, handle }),
        FactoryResult::Refused(reason) => Err(LoadError::Initialization(reason)),
    }
}

/// Runs the loading procedure against `host`: open the module at `path`,
/// resolve the entry symbol, invoke it, and couple a ready instance with
/// its handle. Each stage's decision is a contracted function of the
/// stage's outcome — [`open_stage`], [`entry_stage`], [`complete_load`] —
/// so every failure maps to exactly its own [`LoadError`] and the entry
/// symbol is only invoked once it resolved. On any failure the partially
/// opened handle is dropped here, so failure is atomic — the caller
/// receives either one complete [`LoadedExtension`] or nothing. Which
/// path each stage takes is up to the outside module and cannot be
/// stated here; everything done with the answers is.
pub fn load<L: ModuleHost>(host: &L, path: &str) -> (r: Result<
    LoadedExtension<L::Handle, L::Inst>,
    LoadError,
>) {
    let opened = host.open_module(path);
    let handle = match open_stage(opened) {
        Ok(h) => h,
        Err(e) => {
            return Err(e);
        },
    };
    let has_symbol = host.resolve_entry(&handle);
    let handle = match entry_stage(handle, has_symbol) {
        Ok(h) => h,
        Err(e) => {
            return Err(e);
        },
    };
    let outcome = host.invoke_entry(&handle);
    complete_load(handle, outcome)
}

} // verus!
