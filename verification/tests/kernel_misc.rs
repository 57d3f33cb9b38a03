use rxv6::clint::{get_mtimecmp_for_hart, CLINT_BASE, MTIMECMP_BASE_ADDR, MTIME_ADDR};
use rxv6::collections::ArrayVec;
use rxv6::cpu::CPU;
use rxv6::hart::Hart;
use rxv6::irq;
use rxv6::proc::{Context, Process, Processes, ProcessState, MAX_PROCESSES};
use rxv6::spinlock::Mutex;
use rxv6::timer;

#[test]
fn clint_register_addresses() {
    assert_eq!(CLINT_BASE, 0x200_0000);
    assert_eq!(MTIMECMP_BASE_ADDR, 0x200_4000);
    assert_eq!(MTIME_ADDR, 0x200_BFF8);
    assert_eq!(get_mtimecmp_for_hart(0), 0x200_4000);
    assert_eq!(get_mtimecmp_for_hart(2), 0x200_4010);
}

#[test]
fn context_new_and_zeroed() {
    let c = Context::new(0x8000_2000, 0x1234);
    assert_eq!(c.ra, 0x1234);
    assert_eq!(c.sp, 0x8000_2000);
    assert_eq!(c.gp, 0);
    assert_eq!(c.t, [0; 7]);
    assert_eq!(c.s, [0; 12]);
    assert_eq!(c.a, [0; 8]);

    let z = Context::zeroed();
    assert_eq!(z, Context::new(0, 0));
}

#[test]
fn hart_starts_quiet() {
    let h = Hart::new();
    assert_eq!(h.mtime, 0);
    assert_eq!(h.mtimecmp, 0);
    assert!(!h.timer_irq_enabled);
    assert!(!h.irq_on);
    assert_eq!(h.mtvec, 0);
    assert_eq!(h.regs, Context::zeroed());
}

#[test]
fn timer_schedule_arms_comparator() {
    let mut h = Hart::new();
    h.mtime = 250;
    assert_eq!(timer::current_time(&h), 250);
    timer::schedule(&mut h, 100);
    assert_eq!(h.mtimecmp, 350);
    assert!(h.timer_irq_enabled);
    // re-arming simply overwrites the earlier deadline
    timer::schedule(&mut h, 10);
    assert_eq!(h.mtimecmp, 260);
}

#[test]
fn irq_toggles_and_trap_vector_mask() {
    let mut h = Hart::new();
    irq::enable(&mut h);
    assert!(h.irq_on);
    irq::disable(&mut h);
    assert!(!h.irq_on);
    irq::setup(&mut h, 0x8000_0003);
    assert_eq!(h.mtvec, 0x8000_0000);
}

#[test]
fn process_lifecycle() {
    let mut p = Process::uninit();
    assert!(p.is_free());
    assert!(!p.can_run(0));
    p.init(0x8000_2000, 0x4000);
    assert!(!p.is_free());
    assert!(p.can_run(0));
    assert_eq!(p.state.get(), ProcessState::Idle);
    let c = p.context.get();
    assert_eq!(c.ra, 0x4000);
    assert_eq!(c.sp, 0x8000_2000);
}

#[test]
fn can_run_per_state() {
    let mut p = Process::uninit();
    p.init(0x8000_2000, 0x4000);
    p.state.set(ProcessState::Running);
    assert!(!p.can_run(1000));
    p.state.set(ProcessState::Sleeping { start: 10, duration: 5 });
    assert!(!p.can_run(14));
    assert!(!p.can_run(15));
    assert!(p.can_run(16));
}

#[test]
fn process_table_capacity() {
    let mut t = Processes::new();
    assert_eq!(t.len(), 0);
    assert_eq!(MAX_PROCESSES, 2);
    let a = t.create(0x10, 0x8000_2000);
    let b = t.create(0x20, 0x8000_4000);
    assert_eq!((a, b), (0, 1));
    assert_eq!(t.len(), 2);
    assert!(!t.get(0).is_free());
    assert!(!t.get(1).is_free());
}

#[test]
fn array_vec_push_and_read() {
    let mut v: ArrayVec<u64, 4> = ArrayVec::new();
    assert_eq!(v.len(), 0);
    v.push(5);
    v.push(7);
    assert_eq!(v.len(), 2);
    assert_eq!(*v.index(0), 5);
    assert_eq!(*v.index(1), 7);
    assert_eq!(v.as_slice(), &[5, 7]);
}

#[test]
fn mutex_and_cpu_defaults() {
    let m = Mutex::new("uart");
    assert!(!m.locked);
    assert_eq!(m.name, "uart");
    let c = CPU::default();
    assert!(c.push_off_state.is_none());
}
