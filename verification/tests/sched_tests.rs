use rxv6::hart::Hart;
use rxv6::proc::{switch, Context, ProcessState};
use rxv6::sched::{Kernel, PassOutcome, ProcessAction, TrapFatal, MCAUSE_MTI};

const QUANTA: u64 = 10;

fn kernel_with_two_processes() -> Kernel {
    let mut k = Kernel::new();
    let p0 = k.create(0x1000, 0x8000_2000);
    let p1 = k.create(0x2000, 0x8000_4000);
    assert_eq!(p0, 0);
    assert_eq!(p1, 1);
    k
}

fn state_of(k: &Kernel, pid: usize) -> ProcessState {
    k.procs.buffer[pid].state.get()
}

#[test]
fn create_populates_dense_slots() {
    let k = kernel_with_two_processes();
    assert_eq!(k.procs.len(), 2);
    assert_eq!(state_of(&k, 0), ProcessState::Idle);
    assert_eq!(state_of(&k, 1), ProcessState::Idle);
    let c0 = k.procs.buffer[0].context.get();
    assert_eq!(c0.ra, 0x1000);
    assert_eq!(c0.sp, 0x8000_2000);
    assert_eq!(c0.gp, 0);
    assert_eq!(c0.t, [0; 7]);
    assert_eq!(c0.s, [0; 12]);
    assert_eq!(c0.a, [0; 8]);
}

#[test]
fn context_round_trip_restores_registers() {
    let mut hart = Hart::new();
    hart.regs.ra = 0xAAAA;
    hart.regs.sp = 0xBBBB;
    hart.regs.gp = 0xCCCC;
    hart.regs.t = [1, 2, 3, 4, 5, 6, 7];
    hart.regs.s = [11, 12, 13, 14, 15, 16, 17, 18, 19, 20, 21, 22];
    hart.regs.a = [31, 32, 33, 34, 35, 36, 37, 38];
    let a_regs = hart.regs;

    let b = Context::new(0x9000, 0x4444);
    let mut a_slot = Context::zeroed();

    // A -> B: A's live registers land in its slot, B's image goes live
    switch(&mut hart, &mut a_slot, &b);
    assert_eq!(a_slot, a_regs);
    assert_eq!(hart.regs, b);

    // B -> A: every register field of A is restored bit for bit
    let mut b_slot = Context::zeroed();
    switch(&mut hart, &mut b_slot, &a_slot);
    assert_eq!(hart.regs, a_regs);
    assert_eq!(b_slot, b);
}

#[test]
fn pass_dispatches_and_advances_cursor() {
    let mut k = kernel_with_two_processes();
    assert_eq!(k.current_pid(), 0);
    let o = k.scheduler_pass(QUANTA, ProcessAction::Yield);
    assert_eq!(o, PassOutcome::Dispatched { pid: 0 });
    assert_eq!(k.current_pid(), 1);
    assert_eq!(state_of(&k, 0), ProcessState::Idle);
    // the quantum timer was armed at dispatch
    assert_eq!(k.hart.mtimecmp, QUANTA);
    assert!(k.hart.timer_irq_enabled);
    assert!(!k.hart.irq_on);
}

#[test]
fn round_robin_two_processes() {
    let mut k = kernel_with_two_processes();
    let actions = vec![ProcessAction::Yield; 4];
    let outcomes = k.run_scheduler(QUANTA, &actions);
    assert_eq!(
        outcomes,
        vec![
            PassOutcome::Dispatched { pid: 0 },
            PassOutcome::Dispatched { pid: 1 },
            PassOutcome::Dispatched { pid: 0 },
            PassOutcome::Dispatched { pid: 1 },
        ]
    );
    assert_eq!(k.current_pid(), 0);
}

#[test]
fn round_robin_with_mixed_actions() {
    // a process that spins is preempted but stays eligible, so every
    // pass still dispatches, each slot once per cycle
    let mut k = kernel_with_two_processes();
    let actions = vec![
        ProcessAction::Spin,
        ProcessAction::Yield,
        ProcessAction::Yield,
        ProcessAction::Spin,
    ];
    let outcomes = k.run_scheduler(QUANTA, &actions);
    assert_eq!(
        outcomes,
        vec![
            PassOutcome::Dispatched { pid: 0 },
            PassOutcome::Dispatched { pid: 1 },
            PassOutcome::Dispatched { pid: 0 },
            PassOutcome::Dispatched { pid: 1 },
        ]
    );
    // two of the four quanta were used in full
    assert_eq!(k.hart.mtime, 2 * QUANTA);
}

#[test]
fn sleep_blocks_until_deadline_passes() {
    let mut k = kernel_with_two_processes();
    k.hart.mtime = 100;

    // dispatch pid 0, which goes to sleep for 30 ticks at time 100
    let o = k.scheduler_pass(QUANTA, ProcessAction::Sleep { duration: 30 });
    assert_eq!(o, PassOutcome::Dispatched { pid: 0 });
    assert_eq!(
        state_of(&k, 0),
        ProcessState::Sleeping { start: 100, duration: 30 }
    );

    // run pid 1 so the cursor returns to 0
    let o = k.scheduler_pass(QUANTA, ProcessAction::Yield);
    assert_eq!(o, PassOutcome::Dispatched { pid: 1 });

    // at exactly start + duration the sleeper is still not eligible
    k.hart.mtime = 130;
    let o = k.scheduler_pass(QUANTA, ProcessAction::Yield);
    assert_eq!(o, PassOutcome::Skipped { pid: 0 });
    assert_eq!(
        state_of(&k, 0),
        ProcessState::Sleeping { start: 100, duration: 30 }
    );

    // skip pid 1's turn cheaply
    let o = k.scheduler_pass(QUANTA, ProcessAction::Yield);
    assert_eq!(o, PassOutcome::Dispatched { pid: 1 });

    // one tick past the deadline it runs again on its next turn
    k.hart.mtime = 131;
    let o = k.scheduler_pass(QUANTA, ProcessAction::Yield);
    assert_eq!(o, PassOutcome::Dispatched { pid: 0 });
    assert_eq!(state_of(&k, 0), ProcessState::Idle);
}

#[test]
fn spin_is_preempted_after_one_quantum() {
    let mut k = kernel_with_two_processes();
    k.hart.mtime = 500;
    let o = k.scheduler_pass(QUANTA, ProcessAction::Spin);
    assert_eq!(o, PassOutcome::Dispatched { pid: 0 });
    // the clock moved exactly one quantum: the timer cut the process off
    assert_eq!(k.hart.mtime, 500 + QUANTA);
    // the trap handler re-armed the comparator before forcing the yield
    assert_eq!(k.hart.mtimecmp, 500 + 2 * QUANTA);
    // the preempted process was demoted, not lost
    assert_eq!(state_of(&k, 0), ProcessState::Idle);
    assert_eq!(k.current_pid(), 1);
}

#[test]
fn example_scenario_two_processes() {
    // process 0 only yields; process 1 sleeps for 3 quanta, then yields.
    // One quantum of wall-clock time passes per scheduler pass.
    let mut k = kernel_with_two_processes();
    let mut trace: Vec<PassOutcome> = Vec::new();
    for pass in 0..6u64 {
        k.hart.mtime = pass * QUANTA;
        let pid = k.current_pid();
        let action = if pid == 1 {
            ProcessAction::Sleep { duration: 3 * QUANTA }
        } else {
            ProcessAction::Yield
        };
        trace.push(k.scheduler_pass(QUANTA, action));
    }
    assert_eq!(
        trace,
        vec![
            PassOutcome::Dispatched { pid: 0 },
            PassOutcome::Dispatched { pid: 1 }, // sleeps until after 10 + 30
            PassOutcome::Dispatched { pid: 0 },
            PassOutcome::Skipped { pid: 1 },    // still asleep at 30
            PassOutcome::Dispatched { pid: 0 },
            PassOutcome::Dispatched { pid: 1 }, // eligible again at 50
        ]
    );
}

#[test]
fn trap_timer_cause_rearms_and_yields() {
    let mut k = kernel_with_two_processes();
    k.hart.mtime = 40;
    let r = k.trap_dispatch(QUANTA, 0x1004, MCAUSE_MTI, 0);
    assert_eq!(r, Ok(()));
    assert_eq!(k.hart.mtimecmp, 40 + QUANTA);
    assert!(k.hart.timer_irq_enabled);
}

#[test]
fn trap_unknown_cause_is_fatal() {
    let mut k = kernel_with_two_processes();
    let r = k.trap_dispatch(QUANTA, 0x1004, 2, 0xdead);
    assert_eq!(
        r,
        Err(TrapFatal { mepc: 0x1004, mcause: 2, mtval: 0xdead })
    );
    // the kernel state is untouched; the caller halts with the diagnostic
    assert_eq!(state_of(&k, 0), ProcessState::Idle);
    assert_eq!(k.current_pid(), 0);
}

#[test]
fn yield_self_saves_and_restores() {
    let mut k = kernel_with_two_processes();
    k.hart.regs.ra = 0x7777;
    let sched = k.scheduler_context.get();
    k.yield_self();
    // the running registers were saved into slot 0's context
    let saved = k.procs.buffer[0].context.get();
    assert_eq!(saved.ra, 0x7777);
    // the scheduler's saved context went live
    assert_eq!(k.hart.regs, sched);
}

#[test]
fn current_follows_cursor() {
    let mut k = kernel_with_two_processes();
    assert!(k.current().can_run(0));
    k.scheduler_pass(QUANTA, ProcessAction::Sleep { duration: 1000 });
    // the cursor moved on; the new current slot is still eligible
    assert_eq!(k.current_pid(), 1);
    assert!(k.current().can_run(0));
    k.scheduler_pass(QUANTA, ProcessAction::Yield);
    // back on the sleeper, which is not eligible yet
    assert!(!k.current().can_run(k.hart.mtime));
}

#[test]
fn sleep_stamps_current_process() {
    let mut k = kernel_with_two_processes();
    k.hart.mtime = 77;
    k.sleep(5);
    assert_eq!(
        state_of(&k, 0),
        ProcessState::Sleeping { start: 77, duration: 5 }
    );
}
