//! A minimal preemptible-process kernel model for a single-hart RISC-V
//! machine-mode environment: a round-robin scheduler over a fixed table
//! of process slots, a register-context save/restore primitive, a
//! timer-driven preemption path, and a reader/writer access tracker
//! guarding shared kernel state.
//!
//! The hardware itself (the CLINT timer registers, the interrupt-enable
//! control bits and the live register file) is modelled as plain data in
//! [`hart::Hart`]; board code that talks to the real memory-mapped
//! registers sits outside this crate and mirrors these transitions.

pub mod clint;
pub mod collections;
pub mod cpu;
pub mod hart;
pub mod irq;
pub mod proc;
pub mod sched;
pub mod spinlock;
pub mod sync;
pub mod timer;
