use vstd::prelude::*;

verus! {

/// Largest number of harts the per-CPU tables are sized for. A single
/// hart runs the kernel; the remaining slots stay at their defaults.
pub const MAX_CPU: usize = 8;

/// Bookkeeping for one nested interrupt-disable section: how deep the
/// nesting is and whether interrupts were on before the outermost entry.
#[derive(Clone, Copy, Debug, PartialEq, Eq, Structural)]
pub struct PushOffState {
    pub nesting_level: usize,
    pub interrupts_enabled_before: bool,
}

/// Per-CPU state.
#[derive(Clone, Copy, Debug, PartialEq, Eq)]
pub struct CPU {
    pub push_off_state: Option<PushOffState>,
}

impl CPU {
    /// A CPU that has never entered an interrupt-disable section.
    pub fn default() -> (r: Self)
        ensures
            r.push_off_state is None,
    {
        Self { push_off_state: None }
    }
}

} // verus!
