//! The lifecycle of the detour that redirects the host's presentation
//! function. The patching itself is done by the caller; the binding keeps
//! the addresses and decides which operation is allowed in which state.

use vstd::prelude::*;
use crate::error::OverlayError;

verus! {

/// How far a detour has come.
#[derive(Clone, Copy, Debug, PartialEq, Eq, Structural)]
pub enum DetourState {
    /// Nothing has been patched.
    Uninitialized,
    /// The trampoline exists, calls still reach the target directly.
    Installed,
    /// Calls to the target reach the replacement.
    Enabled,
    /// The redirection has been switched off again.
    Disabled,
}

/// One hooked function.
#[derive(Clone, Copy, Debug, PartialEq, Eq, Structural)]
pub struct DetourBinding {
    /// The address of the hooked function; 0 until installed.
    pub target: usize,
    /// The address that calls are redirected to; 0 until installed.
    pub replacement: usize,
    /// The address through which the target's own code is reached while the
    /// detour is enabled; 0 until installed.
    pub trampoline: usize,
    /// The state of the detour.
    pub state: DetourState,
}

/// The address of an exported symbol, or the error for a symbol that was
/// not found, which is reported as address 0.
pub open spec fn resolved(address: usize) -> Result<usize, OverlayError> {
    if address == 0 {
        Err(OverlayError::SymbolResolution)
    } else {
        Ok(address)
    }
}

impl DetourBinding {
    /// The addresses are known exactly when something has been installed,
    /// and none of them is null then.
    pub open spec fn wf(self) -> bool {
        if self.state == DetourState::Uninitialized {
            self.target == 0 && self.replacement == 0 && self.trampoline == 0
        } else {
            self.target != 0 && self.replacement != 0 && self.trampoline != 0
        }
    }

    /// Whether `install` with these arguments succeeds.
    pub open spec fn can_install(self, replacement: usize, trampoline: Option<usize>) -> bool {
        &&& self.state == DetourState::Uninitialized
        &&& replacement != 0
        &&& trampoline matches Some(t) && t != 0
    }

    /// The binding after a successful `install`.
    pub open spec fn installed(target: usize, replacement: usize, trampoline: usize) -> Self {
        DetourBinding { target, replacement, trampoline, state: DetourState::Installed }
    }

    /// The address to call in order to run the target's own code.
    pub open spec fn entry(self) -> Option<usize> {
        match self.state {
            DetourState::Uninitialized => None,
            DetourState::Enabled => Some(self.trampoline),
            DetourState::Installed | DetourState::Disabled => Some(self.target),
        }
    }

    /// A binding for which nothing has been patched yet.
    pub fn new() -> (binding: Self)
        ensures
            binding.state == DetourState::Uninitialized,
            binding.wf(),
    {
        DetourBinding { target: 0, replacement: 0, trampoline: 0, state: DetourState::Uninitialized }
    }

    /// Checks the outcome of looking up the target symbol: address 0 stands
    /// for a symbol that the module does not export.
    pub fn resolve(address: usize) -> (target: Result<usize, OverlayError>)
        ensures
            target == resolved(address),
    {
        if address == 0 {
            Err(OverlayError::SymbolResolution)
        } else {
            Ok(address)
        }
    }

    /// Records that a trampoline was built for `target`. `trampoline` is
    /// what building it gave, `None` where it failed.
    ///
    /// Fails, and changes nothing, where a detour has been installed before,
    /// where the target was not resolved, or where an address is missing.
    pub fn install(&mut self, target: usize, replacement: usize, trampoline: Option<usize>) -> (outcome:
        Result<(), OverlayError>)
        ensures
            old(self).wf() ==> final(self).wf(),
            outcome == (if old(self).state != DetourState::Uninitialized {
                Err::<(), OverlayError>(OverlayError::HookInstall)
            } else if target == 0 {
                Err(OverlayError::SymbolResolution)
            } else if old(self).can_install(replacement, trampoline) {
                Ok(())
            } else {
                Err(OverlayError::HookInstall)
            }),
            outcome is Ok ==> *final(self) == Self::installed(target, replacement, trampoline->0),
            outcome is Err ==> *final(self) == *old(self),
    {
        if self.state != DetourState::Uninitialized {
            return Err(OverlayError::HookInstall);
        }
        if target == 0 {
            return Err(OverlayError::SymbolResolution);
        }
        if replacement == 0 {
            return Err(OverlayError::HookInstall);
        }
        match trampoline {
            Some(t) => {
                if t == 0 {
                    return Err(OverlayError::HookInstall);
                }
                self.target = target;
                self.replacement = replacement;
                self.trampoline = t;
                self.state = DetourState::Installed;
                Ok(())
            },
            None => Err(OverlayError::HookInstall),
        }
    }

    /// Records the outcome of switching the redirection on. `activated`
    /// tells whether the patch took.
    ///
    /// Succeeds from the installed and the disabled state where the patch
    /// took; fails, and changes nothing, in every other case.
    pub fn enable(&mut self, activated: bool) -> (outcome: Result<(), OverlayError>)
        ensures
            old(self).wf() ==> final(self).wf(),
            outcome is Ok <==> activated && (old(self).state == DetourState::Installed || old(
                self,
            ).state == DetourState::Disabled),
            outcome is Err ==> outcome == Err::<(), OverlayError>(OverlayError::HookEnable),
            outcome is Ok ==> *final(self) == (DetourBinding {
                state: DetourState::Enabled,
                ..*old(self)
            }),
            outcome is Err ==> *final(self) == *old(self),
    {
        let ready = self.state == DetourState::Installed || self.state == DetourState::Disabled;
        if ready && activated {
            self.state = DetourState::Enabled;
            Ok(())
        } else {
            Err(OverlayError::HookEnable)
        }
    }

    /// Records the outcome of switching the redirection off. `deactivated`
    /// tells whether the target's own code was restored.
    ///
    /// Succeeds from the enabled state where the target's own code was
    /// restored; fails, and changes nothing, in every other case.
    pub fn disable(&mut self, deactivated: bool) -> (outcome: Result<(), OverlayError>)
        ensures
            old(self).wf() ==> final(self).wf(),
            outcome is Ok <==> deactivated && old(self).state == DetourState::Enabled,
            outcome is Err ==> outcome == Err::<(), OverlayError>(OverlayError::HookEnable),
            outcome is Ok ==> *final(self) == (DetourBinding {
                state: DetourState::Disabled,
                ..*old(self)
            }),
            outcome is Err ==> *final(self) == *old(self),
    {
        if self.state == DetourState::Enabled && deactivated {
            self.state = DetourState::Disabled;
            Ok(())
        } else {
            Err(OverlayError::HookEnable)
        }
    }

    /// The address through which the target's own code is reached: the
    /// trampoline while the detour is enabled, the target itself while it
    /// is installed but not active, and none before it is installed.
    pub fn call_through(&self) -> (address: Option<usize>)
        ensures
            address == self.entry(),
    {
        match self.state {
            DetourState::Uninitialized => None,
            DetourState::Enabled => Some(self.trampoline),
            DetourState::Installed => Some(self.target),
            DetourState::Disabled => Some(self.target),
        }
    }
}

/// Once a detour is installed, a second `install` is refused whatever its
/// arguments: the target is never patched twice.
pub proof fn lemma_install_once(
    binding: DetourBinding,
    replacement: usize,
    trampoline: Option<usize>,
)
    requires
        binding.state != DetourState::Uninitialized,
    ensures
        !binding.can_install(replacement, trampoline),
{
}

/// From the moment a detour is installed there is always an address through
/// which the target's own code is reached, and it is not null.
pub proof fn lemma_target_stays_reachable(binding: DetourBinding)
    requires
        binding.wf(),
        binding.state != DetourState::Uninitialized,
    ensures
        binding.entry() matches Some(address) && address != 0,
{
}

} // verus!
