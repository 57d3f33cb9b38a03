use vstd::prelude::*;

verus! {

use crate::hart::Hart;
use crate::irq;
use crate::proc::{
    eligible_spec, switch, Context, Process, Processes, ProcessState, MAX_PROCESSES, PID,
};
use crate::sync::RWCell;
use crate::timer;
use vstd::arithmetic::div_mod::{
    lemma_add_mod_noop, lemma_mod_add_multiples_vanish, lemma_mod_bound, lemma_mod_equivalence,
    lemma_small_mod,
};

/// Machine cause value of a machine-timer interrupt: the interrupt bit
/// (the top bit) set, cause code seven.
pub const MCAUSE_MTI: u64 = 0x8000_0000_0000_0007;

/// Diagnostic carried out of the trap dispatcher for any trap cause it
/// does not handle: the faulting program counter, the cause and the trap
/// value. Such a trap is unrecoverable; the caller halts with it.
#[derive(Clone, Copy, Debug, PartialEq, Eq, Structural)]
pub struct TrapFatal {
    pub mepc: u64,
    pub mcause: u64,
    pub mtval: u64,
}

/// What a dispatched process does with its quantum. The kernel never
/// runs process code itself: the environment that drives the scheduler
/// reports back which of the three suspension points the process
/// reached.
#[derive(Clone, Copy, Debug, PartialEq, Eq, Structural)]
pub enum ProcessAction {
    /// Switches back to the scheduler immediately, keeping its state.
    Yield,
    /// Stamps itself sleeping for this many ticks, then switches back.
    Sleep { duration: u64 },
    /// Never yields; runs until the quantum timer preempts it.
    Spin,
}

/// What one pass of the driver loop did with the slot under the cursor.
#[derive(Clone, Copy, Debug, PartialEq, Eq, Structural)]
pub enum PassOutcome {
    /// The slot was eligible and ran for up to one quantum.
    Dispatched { pid: PID },
    /// The slot was not eligible; it still consumed its turn.
    Skipped { pid: PID },
}

impl PassOutcome {
    /// The PID the pass examined, dispatched or not.
    pub open spec fn pid(&self) -> PID {
        match *self {
            PassOutcome::Dispatched { pid } => pid,
            PassOutcome::Skipped { pid } => pid,
        }
    }
}

/// The whole of the kernel's mutable state: the process table, the
/// scheduler's own saved context, the round-robin cursor, and the
/// machine state of the hart it runs on. The shared pieces sit in
/// access-tracked cells, exactly as the running system guards them.
pub struct Kernel {
    pub procs: Processes,
    pub scheduler_context: RWCell<Context>,
    pub current_pid: RWCell<PID>,
    pub hart: Hart,
}

impl Kernel {
    /// Structural well-formedness: the table is well formed, no guard is
    /// outstanding on any shared cell, and the cursor points into the
    /// populated part of the table.
    pub open spec fn inv(&self) -> bool {
        &&& self.procs.wf()
        &&& self.scheduler_context.is_free()
        &&& self.current_pid.is_free()
        &&& self.procs.len == 0 ==> self.current_pid.value() == 0
        &&& self.procs.len > 0 ==> (self.current_pid.value() as int) < (self.procs.len as int)
    }

    /// Well formed and quiescent: the hart is executing the scheduler
    /// itself, so no slot is marked running. Every scheduler pass starts
    /// and ends here; only one slot at a time is marked running inside a
    /// pass.
    pub open spec fn at_rest(&self) -> bool {
        &&& self.inv()
        &&& forall|i: int|
            0 <= i < MAX_PROCESSES ==> !(#[trigger] self.procs.buffer@[i].state.value()
                is Running)
    }

    /// The round-robin cursor: which slot is logically executing or is
    /// about to be examined.
    pub open spec fn cursor(&self) -> PID {
        self.current_pid.value()
    }

    /// Scheduling state of the slot at `pid`.
    pub open spec fn state_of(&self, pid: int) -> ProcessState {
        self.procs.buffer@[pid].state.value()
    }

    /// Saved register context of the slot at `pid`.
    pub open spec fn context_of(&self, pid: int) -> Context {
        self.procs.buffer@[pid].context.value()
    }

    /// Every populated slot is idle.
    pub open spec fn all_idle(&self) -> bool {
        forall|i: int| 0 <= i < self.procs.len ==> (#[trigger] self.state_of(i)) is Idle
    }

    /// The kernel as the boot path builds it: an empty table, zeroed
    /// contexts, the cursor on slot zero, the machine quiet.
    pub fn new() -> (r: Self)
        ensures
            r.at_rest(),
            r.procs.len == 0,
            r.cursor() == 0,
            r.scheduler_context.value().is_zeroed(),
            r.hart.mtime == 0,
            r.hart.mtimecmp == 0,
            !r.hart.timer_irq_enabled,
            !r.hart.irq_on,
            r.hart.mtvec == 0,
            r.hart.regs.is_zeroed(),
    {
        Self {
            procs: Processes::new(),
            scheduler_context: RWCell::new("SCHED_CTX", Context::zeroed()),
            current_pid: RWCell::new("CPID", 0),
            hart: Hart::new(),
        }
    }

    /// Creates a process in the first free slot; see
    /// [`Processes::create`].
    pub fn create(&mut self, entry: u64, stack_end: u64) -> (pid: PID)
        requires
            old(self).at_rest(),
            old(self).procs.len < MAX_PROCESSES,
        ensures
            final(self).at_rest(),
            pid == old(self).procs.len,
            final(self).procs.len == old(self).procs.len + 1,
            final(self).state_of(pid as int) is Idle,
            crate::proc::is_entry_context(final(self).context_of(pid as int), stack_end, entry),
            forall|i: int|
                0 <= i < MAX_PROCESSES && i != pid ==> final(self).procs.buffer@[i] == old(self).procs.buffer@[i],
            final(self).cursor() == old(self).cursor(),
            final(self).hart == old(self).hart,
            final(self).scheduler_context.value() == old(self).scheduler_context.value(),
    {
        self.procs.create(entry, stack_end)
    }

    /// The PID of the slot logically executing or about to be examined.
    pub fn current_pid(&self) -> (r: PID)
        requires
            self.inv(),
        ensures
            r == self.cursor(),
    {
        self.current_pid.get()
    }

    /// The slot logically executing or about to be examined.
    pub fn current(&self) -> (r: &Process)
        requires
            self.inv(),
            self.procs.len > 0,
        ensures
            *r == self.procs.buffer@[self.cursor() as int],
    {
        let pid = self.current_pid.get();
        self.procs.get(pid)
    }

    /// Switches from the current process's own context back into the
    /// scheduler's saved context, immediately and without changing the
    /// process's state. A process that wants a different next state
    /// stamps it before calling this.
    pub fn yield_self(&mut self)
        requires
            old(self).inv(),
            old(self).procs.len > 0,
        ensures
            final(self).inv(),
            final(self).procs.len == old(self).procs.len,
            final(self).cursor() == old(self).cursor(),
            final(self).context_of(old(self).cursor() as int) == old(self).hart.regs,
            final(self).hart.regs == old(self).scheduler_context.value(),
            final(self).hart.mtime == old(self).hart.mtime,
            final(self).hart.mtimecmp == old(self).hart.mtimecmp,
            final(self).hart.timer_irq_enabled == old(self).hart.timer_irq_enabled,
            final(self).hart.irq_on == old(self).hart.irq_on,
            final(self).hart.mtvec == old(self).hart.mtvec,
            final(self).scheduler_context.value() == old(self).scheduler_context.value(),
            forall|i: int|
                0 <= i < MAX_PROCESSES ==> final(self).state_of(i) == old(self).state_of(i),
            forall|i: int|
                0 <= i < MAX_PROCESSES && i != old(self).cursor() ==> final(self).procs.buffer@[i] == old(self).procs.buffer@[i],
    {
        let pid = self.current_pid.get();
        let idx = pid as usize;
        let mut proc_ctx = self.procs.buffer[idx].context.get();
        let sched_ctx = self.scheduler_context.get();
        switch(&mut self.hart, &mut proc_ctx, &sched_ctx);
        self.procs.buffer[idx].context.set(proc_ctx);
    }

    /// Stamps the current process sleeping from the present clock
    /// reading for `duration` ticks, then yields back to the scheduler.
    pub fn sleep(&mut self, duration: u64)
        requires
            old(self).inv(),
            old(self).procs.len > 0,
        ensures
            final(self).inv(),
            final(self).procs.len == old(self).procs.len,
            final(self).cursor() == old(self).cursor(),
            final(self).state_of(old(self).cursor() as int) == (ProcessState::Sleeping {
                start: old(self).hart.mtime,
                duration,
            }),
            final(self).context_of(old(self).cursor() as int) == old(self).hart.regs,
            final(self).hart.regs == old(self).scheduler_context.value(),
            final(self).hart.mtime == old(self).hart.mtime,
            final(self).hart.mtimecmp == old(self).hart.mtimecmp,
            final(self).hart.timer_irq_enabled == old(self).hart.timer_irq_enabled,
            final(self).hart.irq_on == old(self).hart.irq_on,
            final(self).hart.mtvec == old(self).hart.mtvec,
            final(self).scheduler_context.value() == old(self).scheduler_context.value(),
            forall|i: int|
                0 <= i < MAX_PROCESSES && i != old(self).cursor() ==> final(self).procs.buffer@[i] == old(self).procs.buffer@[i],
    {
        let now = timer::current_time(&self.hart);
        let pid = self.current_pid.get();
        let idx = pid as usize;
        self.procs.buffer[idx].state.set(ProcessState::Sleeping { start: now, duration });
        self.yield_self();
    }

    /// The high-level trap handler. A timer-cause interrupt means the
    /// running process's time is up: the quantum timer is re-armed and
    /// the process is forced to yield. Any other cause is unrecoverable:
    /// the kernel state is left untouched and the full diagnostic is
    /// handed back for the halt path.
    pub fn trap_dispatch(&mut self, quanta: u64, mepc: u64, mcause: u64, mtval: u64) -> (r:
        Result<(), TrapFatal>)
        requires
            old(self).inv(),
            old(self).procs.len > 0,
            old(self).hart.mtime + quanta <= u64::MAX,
        ensures
            final(self).inv(),
            mcause != MCAUSE_MTI ==> r == Result::<(), TrapFatal>::Err(
                TrapFatal { mepc, mcause, mtval },
            ) && *final(self) == *old(self),
            mcause == MCAUSE_MTI ==> {
                &&& r == Result::<(), TrapFatal>::Ok(())
                &&& final(self).procs.len == old(self).procs.len
                &&& final(self).cursor() == old(self).cursor()
                &&& final(self).hart.mtimecmp == old(self).hart.mtime + quanta
                &&& final(self).hart.timer_irq_enabled
                &&& final(self).hart.mtime == old(self).hart.mtime
                &&& final(self).hart.irq_on == old(self).hart.irq_on
                &&& final(self).hart.mtvec == old(self).hart.mtvec
                &&& final(self).context_of(old(self).cursor() as int) == old(self).hart.regs
                &&& final(self).hart.regs == old(self).scheduler_context.value()
                &&& final(self).scheduler_context.value() == old(self).scheduler_context.value()
                &&& forall|i: int|
                    0 <= i < MAX_PROCESSES ==> final(self).state_of(i) == old(self).state_of(i)
                &&& forall|i: int|
                    0 <= i < MAX_PROCESSES && i != old(self).cursor() ==> final(self).procs.buffer@[i] == old(self).procs.buffer@[i]
            },
    {
        if mcause == MCAUSE_MTI {
            timer::schedule(&mut self.hart, quanta);
            self.yield_self();
            Ok(())
        } else {
            Err(TrapFatal { mepc, mcause, mtval })
        }
    }

    /// One pass of the indefinite driver loop. If the slot under the
    /// cursor is eligible it is marked running, the timer is armed for
    /// one quantum, interrupts are enabled and control switches into it;
    /// when control returns the slot is demoted to idle unless it
    /// stamped itself sleeping. Whether or not the slot ran, the cursor
    /// then advances one slot, so an ineligible process still consumes
    /// its turn and can starve nobody. The bound on the clock is a
    /// machine limit: one pass can arm the comparator twice.
    pub fn scheduler_pass(&mut self, quanta: u64, action: ProcessAction) -> (r: PassOutcome)
        requires
            old(self).at_rest(),
            old(self).procs.len > 0,
            !old(self).hart.irq_on,
            old(self).hart.mtime + 2 * quanta <= u64::MAX,
        ensures
            final(self).at_rest(),
            final(self).procs.len == old(self).procs.len,
            r.pid() == old(self).cursor(),
            final(self).cursor() as int == (old(self).cursor() + 1) % (old(self).procs.len as int),
            !final(self).hart.irq_on,
            final(self).hart.mtvec == old(self).hart.mtvec,
            ({
                let pid = old(self).cursor() as int;
                let eligible = eligible_spec(old(self).state_of(pid), old(self).hart.mtime);
                &&& !eligible ==> {
                    &&& r == (PassOutcome::Skipped { pid: old(self).cursor() })
                    &&& final(self).hart == old(self).hart
                    &&& forall|i: int|
                        0 <= i < MAX_PROCESSES ==> final(self).procs.buffer@[i] == old(self).procs.buffer@[i]
                    &&& final(self).scheduler_context.value() == old(self).scheduler_context.value()
                }
                &&& eligible ==> {
                    &&& r == (PassOutcome::Dispatched { pid: old(self).cursor() })
                    &&& final(self).hart.regs == old(self).hart.regs
                    &&& final(self).scheduler_context.value() == old(self).hart.regs
                    &&& final(self).hart.timer_irq_enabled
                    &&& final(self).context_of(pid) == old(self).context_of(pid)
                    &&& forall|i: int|
                        0 <= i < MAX_PROCESSES && i != pid ==> final(self).procs.buffer@[i]
                            == old(self).procs.buffer@[i]
                    &&& action is Yield ==> final(self).state_of(pid) is Idle && final(self).hart.mtime == old(self).hart.mtime && final(self).hart.mtimecmp == old(self).hart.mtime + quanta
                    &&& action matches ProcessAction::Sleep { duration } ==> final(self).state_of(pid) == (ProcessState::Sleeping {
                        start: old(self).hart.mtime,
                        duration,
                    }) && final(self).hart.mtime == old(self).hart.mtime && final(self).hart.mtimecmp == old(self).hart.mtime + quanta
                    &&& action is Spin ==> final(self).state_of(pid) is Idle && final(self).hart.mtime == old(self).hart.mtime + quanta && final(self).hart.mtimecmp
                        == old(self).hart.mtime + 2 * quanta
                }
            }),
    {
        let pid = self.current_pid.get();
        let idx = pid as usize;
        let now = timer::current_time(&self.hart);
        let runnable = self.procs.buffer[idx].can_run(now);
        let r: PassOutcome;
        if runnable {
            self.procs.buffer[idx].state.set(ProcessState::Running);
            timer::schedule(&mut self.hart, quanta);
            // Dispatch: save the scheduler's own execution, load the
            // process's saved context.
            let mut sched_ctx = self.scheduler_context.get();
            let proc_ctx = self.procs.buffer[idx].context.get();
            irq::enable(&mut self.hart);
            switch(&mut self.hart, &mut sched_ctx, &proc_ctx);
            self.scheduler_context.set(sched_ctx);
            proof {
                // the slot under the cursor was just marked running
                assert(self.state_of(pid as int) is Running);
            }
            // The process now runs until one of its three suspension
            // points; the environment reports which.
            match action {
                ProcessAction::Yield => {
                    self.yield_self();
                    proof {
                        // a bare yield leaves the slot marked running
                        assert(self.state_of(pid as int) is Running);
                    }
                },
                ProcessAction::Sleep { duration } => self.sleep(duration),
                ProcessAction::Spin => {
                    // The quantum elapses, the comparator fires, and the
                    // trap dispatcher re-arms the timer and forces the
                    // yield.
                    self.hart.mtime = self.hart.mtimecmp;
                    let pc = self.hart.regs.ra;
                    let handled = self.trap_dispatch(quanta, pc, MCAUSE_MTI, 0);
                    let _ = handled;
                    proof {
                        // a forced yield leaves the slot marked running
                        assert(self.state_of(pid as int) is Running);
                    }
                },
            }
            irq::disable(&mut self.hart);
            // Demote the slot unless it stamped itself sleeping: a
            // voluntary yield and a timer preemption both leave it
            // marked running, a voluntary sleep does not.
            let state = self.procs.buffer[idx].state.get();
            proof {
                assert(!(action is Sleep) ==> state is Running);
            }
            if matches!(state, ProcessState::Running) {
                self.procs.buffer[idx].state.set(ProcessState::Idle);
            }
            r = PassOutcome::Dispatched { pid };
        } else {
            r = PassOutcome::Skipped { pid };
        }
        let n = self.procs.len() as u64;
        self.current_pid.set((pid + 1) % n);
        r
    }

    /// The indefinite driver loop, run for one reported action per
    /// pass: the environment hands the kernel what each dispatched
    /// process did with its quantum, and collects what each pass did
    /// with the slot under the cursor. The clock bound is a machine
    /// limit: every pass may arm the comparator twice.
    pub fn run_scheduler(&mut self, quanta: u64, actions: &Vec<ProcessAction>) -> (outcomes: Vec<
        PassOutcome,
    >)
        requires
            old(self).at_rest(),
            old(self).procs.len > 0,
            !old(self).hart.irq_on,
            old(self).hart.mtime + 2 * (quanta as int) * (actions@.len() as int) <= u64::MAX,
        ensures
            final(self).at_rest(),
            final(self).procs.len == old(self).procs.len,
            !final(self).hart.irq_on,
            outcomes@.len() == actions@.len(),
            forall|i: int|
                0 <= i < actions@.len() ==> (#[trigger] outcomes@[i]).pid() as int == cyclic_pid(
                    old(self).cursor() as int,
                    old(self).procs.len as int,
                    i,
                ),
            final(self).cursor() as int == cyclic_pid(
                old(self).cursor() as int,
                old(self).procs.len as int,
                actions@.len() as int,
            ),
            (old(self).all_idle() && (forall|i: int|
                0 <= i < actions@.len() ==> !((#[trigger] actions@[i]) is Sleep))) ==> {
                &&& forall|i: int|
                    0 <= i < actions@.len() ==> (#[trigger] outcomes@[i]) is Dispatched
                &&& final(self).all_idle()
            },
    {
        let ghost start = old(self).cursor() as int;
        let ghost n = old(self).procs.len as int;
        let ghost m = actions@.len() as int;
        let ghost q = quanta as int;
        let mut outcomes: Vec<PassOutcome> = Vec::new();
        let mut k: usize = 0;
        proof {
            lemma_small_mod(start as nat, n as nat);
        }
        while k < actions.len()
            invariant
                self.at_rest(),
                self.procs.len == old(self).procs.len,
                !self.hart.irq_on,
                n == self.procs.len as int,
                m == actions@.len() as int,
                q == quanta as int,
                n > 0,
                0 <= start < n,
                k == outcomes@.len(),
                k <= m,
                self.cursor() as int == cyclic_pid(start, n, k as int),
                self.hart.mtime + 2 * q * (m - k) <= u64::MAX,
                forall|i: int|
                    0 <= i < k ==> (#[trigger] outcomes@[i]).pid() as int == cyclic_pid(
                        start,
                        n,
                        i,
                    ),
                (old(self).all_idle() && (forall|i: int|
                    0 <= i < m ==> !((#[trigger] actions@[i]) is Sleep))) ==> {
                    &&& forall|i: int| 0 <= i < k ==> (#[trigger] outcomes@[i]) is Dispatched
                    &&& self.all_idle()
                },
            decreases m - k,
        {
            let action = actions[k];
            proof {
                assert(2 * q * (m - k) >= 2 * q) by (nonlinear_arith)
                    requires
                        q >= 0,
                        m - k >= 1,
                ;
            }
            let ghost pre = *self;
            let o = self.scheduler_pass(quanta, action);
            outcomes.push(o);
            proof {
                lemma_cursor_step(start + k, n);
                assert(2 * q * (m - (k + 1)) == 2 * q * (m - k) - 2 * q) by (nonlinear_arith);
                assert(self.hart.mtime <= pre.hart.mtime + q);
                if old(self).all_idle() && (forall|i: int|
                    0 <= i < m ==> !((#[trigger] actions@[i]) is Sleep)) {
                    assert(pre.all_idle());
                    assert(!(actions@[k as int] is Sleep));
                    assert(pre.state_of(pre.cursor() as int) is Idle);
                    assert(outcomes@[k as int] is Dispatched);
                    assert(self.state_of(pre.cursor() as int) is Idle);
                    assert forall|i: int|
                        0 <= i < self.procs.len implies (#[trigger] self.state_of(i)) is Idle by {
                        if i != pre.cursor() as int {
                            assert(self.procs.buffer@[i] == pre.procs.buffer@[i]);
                            assert(pre.state_of(i) is Idle);
                        }
                    }
                }
            }
            k += 1;
        }
        outcomes
    }
}

/// The PID the round-robin cursor reaches `i` passes after standing at
/// `start`, in a table of `n` populated slots.
pub open spec fn cyclic_pid(start: int, n: int, i: int) -> int {
    (start + i) % n
}

/// How many passes after standing at `start` the cursor reaches the
/// slot `p`, in a table of `n` populated slots.
pub open spec fn cyclic_index(start: int, n: int, p: int) -> int {
    if p >= start {
        p - start
    } else {
        p - start + n
    }
}

/// Advancing the cursor one slot from the position reached after `a`
/// steps lands on the position reached after `a + 1` steps.
proof fn lemma_cursor_step(a: int, n: int)
    requires
        n > 0,
        a >= 0,
    ensures
        (a % n + 1) % n == (a + 1) % n,
{
    lemma_add_mod_noop(a, 1, n);
    if n == 1 {
        lemma_mod_bound(a % n + 1, n);
        lemma_mod_bound(a + 1, n);
    } else {
        lemma_small_mod(1nat, n as nat);
    }
}

/// Law: round-robin fairness. With `n` populated slots and the cursor
/// standing at `start`, `n` consecutive passes examine each PID exactly
/// once, in increasing cyclic order from the cursor: the visited PIDs
/// are pairwise distinct and cover the whole table. With every slot
/// eligible throughout, [`Kernel::run_scheduler`] dispatches exactly
/// those PIDs, so no process can starve another.
pub proof fn lemma_round_robin_fair(start: int, n: int)
    requires
        0 <= start < n,
    ensures
        forall|i: int| 0 <= i < n ==> 0 <= #[trigger] cyclic_pid(start, n, i) < n,
        forall|i: int, j: int|
            0 <= i < j < n ==> cyclic_pid(start, n, i) != cyclic_pid(start, n, j),
        forall|p: int|
            0 <= p < n ==> 0 <= #[trigger] cyclic_index(start, n, p) < n && cyclic_pid(
                start,
                n,
                cyclic_index(start, n, p),
            ) == p,
{
    assert forall|i: int| 0 <= i < n implies 0 <= #[trigger] cyclic_pid(start, n, i) < n by {
        lemma_mod_bound(start + i, n);
    }
    assert forall|i: int, j: int|
        0 <= i < j < n implies cyclic_pid(start, n, i) != cyclic_pid(start, n, j) by {
        if cyclic_pid(start, n, i) == cyclic_pid(start, n, j) {
            lemma_mod_equivalence(start + j, start + i, n);
            assert((j - i) % n == 0);
            lemma_small_mod((j - i) as nat, n as nat);
        }
    }
    assert forall|p: int|
        0 <= p < n implies 0 <= #[trigger] cyclic_index(start, n, p) < n && cyclic_pid(
        start,
        n,
        cyclic_index(start, n, p),
    ) == p by {
        if p >= start {
            lemma_small_mod(p as nat, n as nat);
        } else {
            lemma_mod_add_multiples_vanish(p, n);
            lemma_small_mod(p as nat, n as nat);
        }
    }
}

} // verus!
