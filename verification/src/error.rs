//! The classified errors a dispatch or subscription step can surface.

use vstd::prelude::*;

verus! {

/// Why a call failed. Dispatch-path errors are always returned to the
/// caller, never swallowed.
#[derive(Debug)]
pub enum TgError {
    /// The network request itself failed before any response was obtained.
    Transport(String),
    /// The remote answered, but the envelope reported failure (`ok` false
    /// or no `result`); carries the remote's description, empty when the
    /// remote sent none or the body was not a valid envelope at all.
    Protocol(String),
    /// The envelope carried a result, but it does not have the shape the
    /// call expects.
    Schema(String),
    /// The call would need a binary upload, but was routed through the
    /// plain JSON path, which cannot carry one; nothing was sent.
    UnsupportedCapability,
    /// The hosting platform broke one of its own bridge invariants.
    HostBridge(String),
}

impl TgError {
    /// A short human-readable account of the error, carrying the remote
    /// description where there is one.
    pub fn message(&self) -> (r: &str)
        ensures
            self matches TgError::Protocol(d) ==> r@ == d@,
            self matches TgError::Transport(d) ==> r@ == d@,
            self matches TgError::Schema(d) ==> r@ == d@,
            self matches TgError::HostBridge(d) ==> r@ == d@,
            self is UnsupportedCapability ==> r@
                == "attachment upload is not supported on this call path"@,
    {
        match self {
            TgError::Transport(d) => d.as_str(),
            TgError::Protocol(d) => d.as_str(),
            TgError::Schema(d) => d.as_str(),
            TgError::UnsupportedCapability => "attachment upload is not supported on this call path",
            TgError::HostBridge(d) => d.as_str(),
        }
    }
}

} // verus!
