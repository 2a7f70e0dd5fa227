//! Error taxonomy for extension setup.
//!
//! Every setup-time failure aborts only the extension's own initialization;
//! the host process keeps running unmodified. There is no runtime error
//! path: once attached, the engine's callbacks are total.

use vstd::prelude::*;

verus! {

/// Why extension setup was abandoned.
#[derive(PartialEq, Eq, Structural, Clone, Copy, Debug)]
pub enum ExtensionError {
    /// A module or plain symbol could not be resolved.
    Resolution,
    /// A host extension entry point (menu or command registration) could
    /// not be resolved, so the host's extension interface is unusable.
    AbiResolution,
    /// Page protection on the hook target could not be changed.
    Protection,
    /// The low-level installer could not rewrite the target's prologue
    /// (region too small, unsupported pattern, or already hooked).
    HookInstall,
    /// A one-shot native buffer was initialized a second time; this is a
    /// logic error in the caller, never expected in correct use.
    BufferReinitConflict,
}

impl ExtensionError {
    /// Short description, for the unverified layer's log lines.
    pub fn describe(&self) -> (r: &'static str)
        ensures
            r@ == self.spec_describe(),
    {
        match self {
            ExtensionError::Resolution => "module or symbol not found",
            ExtensionError::AbiResolution => "host extension entry point not found",
            ExtensionError::Protection => "could not change page protection",
            ExtensionError::HookInstall => "could not install hook",
            ExtensionError::BufferReinitConflict => "native buffer initialized twice",
        }
    }

    pub open spec fn spec_describe(&self) -> Seq<char> {
        match self {
            ExtensionError::Resolution => "module or symbol not found"@,
            ExtensionError::AbiResolution => "host extension entry point not found"@,
            ExtensionError::Protection => "could not change page protection"@,
            ExtensionError::HookInstall => "could not install hook"@,
            ExtensionError::BufferReinitConflict => "native buffer initialized twice"@,
        }
    }
}

} // verus!
