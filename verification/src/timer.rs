use vstd::prelude::*;

verus! {

use crate::hart::Hart;

/// A pure read of the free-running hardware counter.
pub fn current_time(hart: &Hart) -> (r: u64)
    ensures
        r == hart.mtime,
{
    hart.mtime
}

/// Arms the timer: writes the current time plus `interval_in_cycles`
/// into the comparator and enables the timer-interrupt class. There is
/// no cancellation; re-arming before the deadline overwrites the
/// comparator and the earlier deadline with it.
pub fn schedule(hart: &mut Hart, interval_in_cycles: u64)
    requires
        old(hart).mtime + interval_in_cycles <= u64::MAX,
    ensures
        final(hart).mtimecmp == old(hart).mtime + interval_in_cycles,
        final(hart).timer_irq_enabled,
        final(hart).regs == old(hart).regs,
        final(hart).mtime == old(hart).mtime,
        final(hart).irq_on == old(hart).irq_on,
        final(hart).mtvec == old(hart).mtvec,
{
    let time = current_time(hart);
    let next_time = time + interval_in_cycles;
    hart.mtimecmp = next_time;
    hart.timer_irq_enabled = true;
}

} // verus!
