//! The hotkey registration manager: owner of the single process-wide global
//! shortcut binding. A rebind is planned, the host performs the OS calls, and
//! the outcome is committed; on a failed registration the manager stays on the
//! prior accelerator, so the in-memory binding and the OS registration never
//! diverge.

use vstd::prelude::*;

use crate::text::{is_blank, spec_trim, str_eq, trim};

verus! {

/// The built-in default accelerator.
pub fn default_hotkey() -> (r: String)
    ensures
        r@ == "Ctrl+Shift+Space"@,
{
    String::from_str("Ctrl+Shift+Space")
}

/// The accelerator a stored (possibly blank) settings value names: trimmed,
/// with the built-in default for blank values.
pub open spec fn spec_effective_hotkey(stored: Seq<char>) -> Seq<char> {
    if is_blank(stored) {
        "Ctrl+Shift+Space"@
    } else {
        spec_trim(stored)
    }
}

/// Resolves a stored settings value to the accelerator to register.
pub fn effective_hotkey(stored: &str) -> (r: String)
    ensures
        r@ == spec_effective_hotkey(stored@),
        r@.len() > 0,
{
    let t = trim(stored);
    if t.unicode_len() == 0 {
        proof {
            reveal_strlit("Ctrl+Shift+Space");
        }
        default_hotkey()
    } else {
        String::from_str(t)
    }
}

/// A failed rebind, naming the accelerator whose registration failed and the
/// underlying cause reported by the OS.
#[derive(Clone, Debug)]
pub struct RebindError {
    pub attempted: String,
    pub cause: String,
}

impl RebindError {
    /// A human-readable failure message, naming the rejected accelerator.
    pub fn message(&self) -> (r: String)
        ensures
            r@ == "Failed to register shortcut '"@ + self.attempted@
                + "'. It may be in use by another application. ("@ + self.cause@ + ")"@,
    {
        let mut r = String::from_str("Failed to register shortcut '");
        r.append(self.attempted.as_str());
        r.append("'. It may be in use by another application. (");
        r.append(self.cause.as_str());
        r.append(")");
        r
    }
}

/// The OS calls a rebind requires: none when the requested accelerator is the
/// current one, otherwise an unregister of the old binding (best-effort)
/// followed by a registration of the new one.
#[derive(Clone, Debug)]
pub enum RebindPlan {
    NoChange,
    Swap { unregister: String, register: String },
}

/// Owner of the single live binding. The field tracks the accelerator that is
/// registered with the OS; every mutation goes through
/// [`HotkeyManager::commit_rebind`], which keeps the two in step.
#[derive(Clone, Debug)]
pub struct HotkeyManager {
    current: String,
}

impl HotkeyManager {
    /// The accelerator this manager holds registered.
    pub closed spec fn spec_current(&self) -> Seq<char> {
        self.current@
    }

    /// Takes ownership of the binding after the host's initial registration
    /// of `accelerator` succeeded.
    pub fn new(accelerator: String) -> (r: Self)
        ensures
            r.spec_current() == accelerator@,
    {
        HotkeyManager { current: accelerator }
    }

    /// The accelerator this manager holds registered.
    pub fn current(&self) -> (r: &String)
        ensures
            r@ == self.spec_current(),
    {
        &self.current
    }

    /// Plans a rebind. Requesting the current accelerator again is a no-op
    /// with no OS registration call; anything else swaps the old binding for
    /// the new one.
    pub fn plan_rebind(&self, requested: &str) -> (p: RebindPlan)
        ensures
            requested@ == self.spec_current() <==> p is NoChange,
            p matches RebindPlan::Swap { unregister, register } ==> unregister@
                == self.spec_current() && register@ == requested@,
    {
        if str_eq(self.current.as_str(), requested) {
            RebindPlan::NoChange
        } else {
            RebindPlan::Swap {
                unregister: self.current.clone(),
                register: String::from_str(requested),
            }
        }
    }

    /// Commits the outcome of the host's registration attempt for
    /// `requested`. On success the manager moves to the new accelerator; on
    /// failure it stays on the prior one — never unregistered, never silently
    /// on a binding the OS refused — and the error names the rejected
    /// accelerator. The host re-registers the prior accelerator on failure;
    /// this rollback restores exactly the binding the manager still holds.
    pub fn commit_rebind(&mut self, requested: &str, registration: Result<(), String>) -> (r:
        Result<(), RebindError>)
        ensures
            registration is Ok ==> r is Ok && final(self).spec_current() == requested@,
            registration matches Err(cause) ==> final(self).spec_current() == old(
                self,
            ).spec_current() && (r matches Err(e) && e.attempted@ == requested@ && e.cause@
                == cause@),
    {
        match registration {
            Ok(()) => {
                self.current = String::from_str(requested);
                Ok(())
            },
            Err(cause) => Err(RebindError { attempted: String::from_str(requested), cause }),
        }
    }
}

/// Plans the rebind a settings change requires. Both stored values are first
/// resolved through their blank fallback; equal effective accelerators need
/// no OS call at all, anything else swaps the old binding for the new one.
pub fn plan_settings_rebind(old_stored: &str, new_stored: &str) -> (p: RebindPlan)
    ensures
        spec_effective_hotkey(old_stored@) == spec_effective_hotkey(new_stored@) <==> p
            is NoChange,
        p matches RebindPlan::Swap { unregister, register } ==> unregister@
            == spec_effective_hotkey(old_stored@) && register@ == spec_effective_hotkey(
            new_stored@,
        ),
{
    let old_eff = effective_hotkey(old_stored);
    let new_eff = effective_hotkey(new_stored);
    if str_eq(old_eff.as_str(), new_eff.as_str()) {
        RebindPlan::NoChange
    } else {
        RebindPlan::Swap { unregister: old_eff, register: new_eff }
    }
}

/// Startup registration is non-fatal: on failure the application continues
/// without a working hotkey and surfaces the failure. This maps the host's
/// registration outcome to the optional manager and the message to surface.
pub fn initial_binding(accelerator: String, registration: Result<(), String>) -> (r: (
    Option<HotkeyManager>,
    Option<RebindError>,
))
    ensures
        registration is Ok ==> (r.0 matches Some(m) && m.spec_current() == accelerator@) && r.1
            is None,
        registration matches Err(cause) ==> r.0 is None && (r.1 matches Some(e) && e.attempted@
            == accelerator@ && e.cause@ == cause@),
{
    match registration {
        Ok(()) => (Some(HotkeyManager::new(accelerator)), None),
        Err(cause) => (None, Some(RebindError { attempted: accelerator, cause })),
    }
}

} // verus!
