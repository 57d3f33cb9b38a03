use vstd::prelude::*;

verus! {

use crate::hart::Hart;
use crate::sync::RWCell;

/// A fixed-layout snapshot of the register file, sufficient to resume a
/// suspended execution at exactly the point it was suspended: return
/// address, stack pointer, global pointer, and the temporary, saved and
/// argument registers. The save code and the restore code share this
/// layout verbatim.
#[derive(Clone, Copy, Debug, PartialEq, Eq)]
pub struct Context {
    pub ra: u64,
    pub sp: u64,
    pub gp: u64,
    pub t: [u64; 7],
    pub s: [u64; 12],
    pub a: [u64; 8],
}

impl Context {
    pub open spec fn is_zeroed(&self) -> bool {
        &&& self.ra == 0
        &&& self.sp == 0
        &&& self.gp == 0
        &&& forall|i: int| 0 <= i < 7 ==> self.t@[i] == 0
        &&& forall|i: int| 0 <= i < 12 ==> self.s@[i] == 0
        &&& forall|i: int| 0 <= i < 8 ==> self.a@[i] == 0
    }

    /// A context that, when switched into, begins executing at `entry`
    /// with `stack_end` as the top of its dedicated stack.
    pub fn new(stack_end: u64, entry: u64) -> (r: Self)
        ensures
            r.ra == entry,
            r.sp == stack_end,
            r.gp == 0,
            forall|i: int| 0 <= i < 7 ==> r.t@[i] == 0,
            forall|i: int| 0 <= i < 12 ==> r.s@[i] == 0,
            forall|i: int| 0 <= i < 8 ==> r.a@[i] == 0,
    {
        Self { ra: entry, sp: stack_end, gp: 0, t: [0; 7], s: [0; 12], a: [0; 8] }
    }

    pub fn zeroed() -> (r: Self)
        ensures
            r.is_zeroed(),
    {
        Self::new(0, 0)
    }
}

/// What one step of the context-switch primitive leaves behind: the pair
/// of the register file saved into the outgoing slot and the register
/// file now live on the hart.
pub open spec fn switch_spec(regs: Context, to: Context) -> (Context, Context) {
    (regs, to)
}

/// The context-switch primitive: stores the live register file into
/// `from` and loads `to` into the processor. From the caller's point of
/// view the call "returns" only when some other context switches back
/// into the one saved here; the very first switch into a freshly built
/// context instead "returns" into its entry function.
pub fn switch(hart: &mut Hart, from: &mut Context, to: &Context)
    ensures
        (*final(from), final(hart).regs) == switch_spec(old(hart).regs, *to),
        *final(from) == old(hart).regs,
        final(hart).regs == *to,
        final(hart).mtime == old(hart).mtime,
        final(hart).mtimecmp == old(hart).mtimecmp,
        final(hart).timer_irq_enabled == old(hart).timer_irq_enabled,
        final(hart).irq_on == old(hart).irq_on,
        final(hart).mtvec == old(hart).mtvec,
{
    *from = hart.regs;
    hart.regs = *to;
}

/// Law: switching from context A into B and then from B back into A's
/// saved image restores every register field of A bit for bit.
pub proof fn lemma_switch_round_trip(a_regs: Context, b: Context)
    ensures
        ({
            let (saved_a, regs1) = switch_spec(a_regs, b);
            let (saved_b, regs2) = switch_spec(regs1, saved_a);
            regs2 == a_regs && saved_b == b
        }),
{
}

/// Small integer handle identifying a process-table slot.
pub type PID = u64;

#[derive(Clone, Copy, Debug, PartialEq, Eq, Structural)]
pub enum ProcessState {
    Free,
    Idle,
    Running,
    Sleeping { start: u64, duration: u64 },
}

pub const MAX_PROCESSES: usize = 2;
pub const PROCESS_STACK_SIZE: usize = 8 * 1024;

/// Whether a process in `state` may be dispatched when the hardware
/// clock reads `now`: an idle process always, a sleeping one exactly
/// when the clock has passed the end of its requested interval.
pub open spec fn eligible_spec(state: ProcessState, now: u64) -> bool {
    match state {
        ProcessState::Free => false,
        ProcessState::Idle => true,
        ProcessState::Running => false,
        ProcessState::Sleeping { start, duration } => now > start + duration,
    }
}

/// Law: a process that went to sleep at time `start` for `duration`
/// ticks is eligible to run exactly when the clock has passed
/// `start + duration`; until then every scheduler pass leaves it waiting.
pub proof fn lemma_sleep_eligibility(start: u64, duration: u64, now: u64)
    ensures
        eligible_spec(ProcessState::Sleeping { start, duration }, now) <==> now > start
            + duration,
{
}

/// The register image a freshly initialized process slot carries: it
/// resumes at `entry` on its own stack, every other register zeroed.
pub open spec fn is_entry_context(c: Context, stack_end: u64, entry: u64) -> bool {
    &&& c.ra == entry
    &&& c.sp == stack_end
    &&& c.gp == 0
    &&& forall|i: int| 0 <= i < 7 ==> c.t@[i] == 0
    &&& forall|i: int| 0 <= i < 12 ==> c.s@[i] == 0
    &&& forall|i: int| 0 <= i < 8 ==> c.a@[i] == 0
}

/// One process-table slot: its scheduling state and its saved register
/// context, each guarded by its own access-tracking cell.
pub struct Process {
    pub state: RWCell<ProcessState>,
    pub context: RWCell<Context>,
}

impl Process {
    /// Both cells at rest, with no guard outstanding.
    pub open spec fn wf(&self) -> bool {
        self.state.is_free() && self.context.is_free()
    }

    pub fn uninit() -> (r: Self)
        ensures
            r.wf(),
            r.state.value() is Free,
            r.context.value().is_zeroed(),
    {
        Self {
            state: RWCell::new("PROC_STATE", ProcessState::Free),
            context: RWCell::new("PROC_CTX", Context::zeroed()),
        }
    }

    /// Populates a free slot with an entry function and the top of its
    /// dedicated stack. Initializing an occupied slot is a fatal
    /// configuration error and is excluded by contract.
    pub fn init(&mut self, stack_end: u64, entry: u64)
        requires
            old(self).wf(),
            old(self).state.value() is Free,
        ensures
            final(self).wf(),
            final(self).state.value() is Idle,
            is_entry_context(final(self).context.value(), stack_end, entry),
    {
        self.context.set(Context::new(stack_end, entry));
        self.state.set(ProcessState::Idle);
    }

    pub fn is_free(&self) -> (r: bool)
        requires
            self.state.can_add_reader(),
        ensures
            r == (self.state.value() is Free),
    {
        matches!(self.state.get(), ProcessState::Free)
    }

    /// Whether this slot may be dispatched when the clock reads `now`.
    pub fn can_run(&self, now: u64) -> (r: bool)
        requires
            self.state.can_add_reader(),
        ensures
            r == eligible_spec(self.state.value(), now),
    {
        match self.state.get() {
            ProcessState::Free => false,
            ProcessState::Idle => true,
            ProcessState::Running => false,
            ProcessState::Sleeping { start, duration } => now > start && now - start > duration,
        }
    }
}

/// The fixed-capacity process table: `MAX_PROCESSES` slots plus a count
/// of how many are populated. PIDs are dense and stable: slot `i` is
/// populated exactly when `i` is below the count.
pub struct Processes {
    pub buffer: Vec<Process>,
    pub len: usize,
}

impl Processes {
    pub open spec fn wf(&self) -> bool {
        &&& self.buffer@.len() == MAX_PROCESSES
        &&& self.len <= MAX_PROCESSES
        &&& forall|i: int| 0 <= i < MAX_PROCESSES ==> (#[trigger] self.buffer@[i]).wf()
        &&& forall|i: int|
            0 <= i < MAX_PROCESSES ==> ((#[trigger] self.buffer@[i].state.value() is Free) <==> i
                >= self.len)
    }

    pub fn new() -> (r: Self)
        ensures
            r.wf(),
            r.len == 0,
    {
        let mut buffer: Vec<Process> = Vec::new();
        loop
            invariant
                buffer@.len() <= MAX_PROCESSES,
                forall|i: int| 0 <= i < buffer@.len() ==> (#[trigger] buffer@[i]).wf(),
                forall|i: int|
                    0 <= i < buffer@.len() ==> #[trigger] buffer@[i].state.value() is Free,
            ensures
                buffer@.len() == MAX_PROCESSES,
                forall|i: int| 0 <= i < buffer@.len() ==> (#[trigger] buffer@[i]).wf(),
                forall|i: int|
                    0 <= i < buffer@.len() ==> #[trigger] buffer@[i].state.value() is Free,
            decreases MAX_PROCESSES - buffer@.len(),
        {
            if buffer.len() == MAX_PROCESSES {
                break;
            }
            buffer.push(Process::uninit());
        }
        Self { buffer, len: 0 }
    }

    pub fn len(&self) -> (r: usize)
        ensures
            r == self.len,
    {
        self.len
    }

    /// Populates the first free slot and returns its PID. Creating a
    /// process beyond the table's capacity is a fatal configuration
    /// error and is excluded by contract.
    pub fn create(&mut self, entry: u64, stack_end: u64) -> (pid: PID)
        requires
            old(self).wf(),
            old(self).len < MAX_PROCESSES,
        ensures
            final(self).wf(),
            pid == old(self).len,
            final(self).len == old(self).len + 1,
            final(self).buffer@[pid as int].state.value() is Idle,
            is_entry_context(final(self).buffer@[pid as int].context.value(), stack_end, entry),
            forall|i: int|
                0 <= i < MAX_PROCESSES && i != pid ==> final(self).buffer@[i] == old(
                    self,
                ).buffer@[i],
    {
        // Scan for the first free slot; by the density invariant that is
        // exactly the slot at the current count.
        let mut pid: usize = 0;
        loop
            invariant
                self.wf(),
                *self == *old(self),
                pid <= self.len,
                self.len < MAX_PROCESSES,
            ensures
                self.wf(),
                *self == *old(self),
                pid == self.len,
            decreases self.len - pid,
        {
            if self.buffer[pid].is_free() {
                break;
            }
            pid += 1;
        }
        self.len = self.len + 1;
        let slot = &mut self.buffer[pid];
        slot.init(stack_end, entry);
        pid as PID
    }

    /// The slot at `pid`; a PID outside the table is a fatal error and
    /// is excluded by contract.
    pub fn get(&self, pid: PID) -> (r: &Process)
        requires
            self.wf(),
            pid < MAX_PROCESSES,
        ensures
            *r == self.buffer@[pid as int],
    {
        &self.buffer[pid as usize]
    }
}

} // verus!
