use vstd::prelude::*;

verus! {

use crate::cpu::MAX_CPU;

/// Base of the core-local interrupt controller's register block.
pub const CLINT_BASE: usize = 0x200_0000;

/// Default timer-interrupt interval, in hardware clock ticks.
pub const TIMER_INTERVAL: usize = 1000000;

/// Address of the first hart's timer comparator register.
pub const MTIMECMP_BASE_ADDR: usize = CLINT_BASE + 0x4000;

/// Address of the free-running counter register.
pub const MTIME_ADDR: usize = CLINT_BASE + 0xBFF8;

/// The address of the timer comparator register belonging to one hart:
/// the comparators sit one machine word apart from the base.
pub fn get_mtimecmp_for_hart(hart_id: usize) -> (r: usize)
    requires
        hart_id < MAX_CPU,
    ensures
        r == MTIMECMP_BASE_ADDR + 8 * hart_id,
{
    MTIMECMP_BASE_ADDR + 8 * hart_id
}

} // verus!
