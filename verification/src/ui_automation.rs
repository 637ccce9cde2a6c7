use vstd::prelude::*;

verus! {

/// A UI Automation client object (`IUIAutomation`), held by the address of
/// its COM interface.
#[derive(Debug, Clone, Copy, PartialEq, Eq, Structural)]
pub struct Automation {
    pub interface: usize,
}

/// The entry point of the UI Automation functions.
#[derive(Debug, Clone, Copy, PartialEq, Eq, Structural)]
pub struct UIAutomationFunc {}

impl UIAutomationFunc {
    /// The entry point of the UI Automation functions for the automation
    /// client `p_automation`. It initialises nothing: it only tests the
    /// client's interface pointer, and answers `true` exactly when it is not
    /// null.
    pub fn init(p_automation: &Automation) -> (ok: bool)
        ensures
            ok == (p_automation.interface != 0),
    {
        p_automation.interface != 0
    }
}

} // verus!
