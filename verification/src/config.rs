//! Host-facing configuration of the bridged scripting surface.

use vstd::prelude::*;

verus! {

/// Options of the bridged scripting surface.
#[derive(Clone, Copy, Debug)]
pub struct JavaScriptOptions {
    /// Whether the client stub is injected into the scripting surface.
    pub inject: bool,
    /// Whether the injected stub logs what it forwards.
    pub debug: bool,
}

impl Default for JavaScriptOptions {
    /// By default the stub is injected and does not log.
    fn default() -> (r: Self)
        ensures
            r.inject,
            !r.debug,
    {
        JavaScriptOptions { inject: true, debug: false }
    }
}

} // verus!
