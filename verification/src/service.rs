//! The context-switch service and the switch trigger. The service's two
//! stack-pointer fields are the only state shared between ordinary code and
//! the interrupt-context switch routine; the trigger stands for the pended
//! lowest-priority exception that defers the heavyweight switch until all
//! higher-priority interrupt work has drained.

use vstd::prelude::*;

verus! {

/// The pending state of the lowest-priority switch exception.
#[derive(Clone, Copy, Debug, PartialEq, Eq, Structural)]
pub struct SwitchTrigger {
    /// Whether the switch exception is armed to run.
    pub pending: bool,
}

impl SwitchTrigger {
    /// Arm the switch exception.
    pub fn set_pending(&mut self)
        ensures
            final(self).pending,
    {
        self.pending = true;
    }
}

/// The "switch from" / "switch to" stack-pointer pair that crosses the
/// interrupt boundary. Zero means "none". Written by the scheduling path,
/// consumed destructively by the switch routine.
#[derive(Clone, Copy, Debug, PartialEq, Eq, Structural)]
pub struct ContextSwitchService {
    /// Saved stack pointer of the thread being switched away from; zero at
    /// boot, when no thread has run yet.
    pub switch_from_sp: u32,
    /// Saved stack pointer of the thread being switched to; zero when no
    /// switch target has been chosen.
    pub switch_to_sp: u32,
}

impl ContextSwitchService {
    /// Arm the switch trigger if a switch is worth performing: there is a
    /// target, and it differs from the thread being switched away from.
    /// This is the sole decision point guarding against spurious switches,
    /// and it touches nothing but the trigger: when the target equals the
    /// source, both trigger and service are left exactly as they were.
    pub fn request_switch(&self, trigger: &mut SwitchTrigger)
        ensures
            final(trigger).pending == (old(trigger).pending
                || (self.switch_to_sp != 0 && self.switch_to_sp != self.switch_from_sp)),
    {
        if self.switch_to_sp != 0 && self.switch_to_sp != self.switch_from_sp {
            trigger.set_pending();
        }
    }
}

} // verus!
