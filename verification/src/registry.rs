//! Process-wide handler installation: the install-once state machine.
//!
//! The registry has two states, uninstalled and installed. The first
//! `install` call performs the real installation work (chaining the panic
//! hook, registering the signal handler) and every later call observes that
//! it has already happened; there is no way back to the uninstalled state.
//! The host keeps one registry for the process, behind whatever
//! synchronization makes the calls atomic.

use vstd::prelude::*;

verus! {

/// One `install` call as a transition: from any state the registry is
/// installed afterwards, and the real installation work is performed
/// exactly when the registry was not yet installed. The result is the pair
/// of the new state and whether the work is performed.
pub open spec fn install_step(installed: bool) -> (bool, bool) {
    (true, !installed)
}

/// How many of `n` consecutive `install` calls, starting from the given
/// state, perform the real installation work.
pub open spec fn installs_performed(installed: bool, n: nat) -> nat
    decreases n,
{
    if n == 0 {
        0
    } else {
        (if installed {
            0nat
        } else {
            1nat
        }) + installs_performed(install_step(installed).0, (n - 1) as nat)
    }
}

/// Law: once installed, no later call performs installation work again.
pub proof fn lemma_no_reinstall(n: nat)
    ensures
        installs_performed(true, n) == 0,
    decreases n,
{
    if n > 0 {
        lemma_no_reinstall((n - 1) as nat);
    }
}

/// Law: however many times `install` is asked of a fresh registry, the real
/// installation work is performed exactly once.
pub proof fn lemma_install_exactly_once(n: nat)
    requires
        n >= 1,
    ensures
        installs_performed(false, n) == 1,
{
    lemma_no_reinstall((n - 1) as nat);
}

/// The install-once state of the process-wide handler registry.
pub struct HandlerRegistry {
    installed: bool,
}

impl HandlerRegistry {
    /// Whether the real installation has already been performed.
    pub closed spec fn is_installed(&self) -> bool {
        self.installed
    }

    /// A fresh registry: nothing installed yet.
    pub fn new() -> (r: Self)
        ensures
            !r.is_installed(),
    {
        HandlerRegistry { installed: false }
    }

    /// Record an installation request. Returns whether the caller must
    /// perform the real installation work: true on the first call, false on
    /// every later one, and the registry is installed from here on.
    pub fn install(&mut self) -> (performed: bool)
        ensures
            (final (self).is_installed(), performed) == install_step(old(self).is_installed()),
            final (self).is_installed(),
            performed == !old(self).is_installed(),
    {
        let performed = !self.installed;
        self.installed = true;
        performed
    }
}

} // verus!
