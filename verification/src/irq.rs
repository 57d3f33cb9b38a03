use vstd::prelude::*;

verus! {

use crate::hart::Hart;

/// Installs the trap-vector base address. The hardware register holds a
/// four-byte-aligned address, so the low two bits are masked off.
pub fn setup(hart: &mut Hart, trapvec: u64)
    ensures
        final(hart).mtvec == trapvec & 0xFFFF_FFFC,
        final(hart).regs == old(hart).regs,
        final(hart).mtime == old(hart).mtime,
        final(hart).mtimecmp == old(hart).mtimecmp,
        final(hart).timer_irq_enabled == old(hart).timer_irq_enabled,
        final(hart).irq_on == old(hart).irq_on,
{
    hart.mtvec = trapvec & 0xFFFF_FFFC;
}

/// Sets the global machine-interrupt enable bit.
pub fn enable(hart: &mut Hart)
    ensures
        final(hart).irq_on,
        final(hart).regs == old(hart).regs,
        final(hart).mtime == old(hart).mtime,
        final(hart).mtimecmp == old(hart).mtimecmp,
        final(hart).timer_irq_enabled == old(hart).timer_irq_enabled,
        final(hart).mtvec == old(hart).mtvec,
{
    hart.irq_on = true;
}

/// Clears the global machine-interrupt enable bit.
pub fn disable(hart: &mut Hart)
    ensures
        !final(hart).irq_on,
        final(hart).regs == old(hart).regs,
        final(hart).mtime == old(hart).mtime,
        final(hart).mtimecmp == old(hart).mtimecmp,
        final(hart).timer_irq_enabled == old(hart).timer_irq_enabled,
        final(hart).mtvec == old(hart).mtvec,
{
    hart.irq_on = false;
}

} // verus!
