use vstd::prelude::*;

verus! {

use crate::proc::Context;

/// The machine state of the single hart, as the kernel sees it: the live
/// register file plus the handful of control and CLINT registers the core
/// reads and writes. Board code that touches the real memory-mapped
/// registers performs exactly these transitions on the hardware.
#[derive(Clone, Copy, Debug, PartialEq, Eq)]
pub struct Hart {
    /// The register file currently loaded in the processor.
    pub regs: Context,
    /// Free-running CLINT counter (`mtime`).
    pub mtime: u64,
    /// CLINT comparator (`mtimecmp`): a timer interrupt fires once
    /// `mtime` reaches it, provided the two enable bits below are set.
    pub mtimecmp: u64,
    /// Timer-interrupt class enable (`mie.MTIE`).
    pub timer_irq_enabled: bool,
    /// Global machine-interrupt enable (`mstatus.MIE`).
    pub irq_on: bool,
    /// Trap-vector base address (`mtvec`).
    pub mtvec: u64,
}

impl Hart {
    /// The machine as the boot path hands it to the kernel: registers
    /// zeroed, the clock at zero, every interrupt source off.
    pub fn new() -> (r: Self)
        ensures
            r.regs.is_zeroed(),
            r.mtime == 0,
            r.mtimecmp == 0,
            !r.timer_irq_enabled,
            !r.irq_on,
            r.mtvec == 0,
    {
        Self {
            regs: Context::zeroed(),
            mtime: 0,
            mtimecmp: 0,
            timer_irq_enabled: false,
            irq_on: false,
            mtvec: 0,
        }
    }
}

} // verus!
