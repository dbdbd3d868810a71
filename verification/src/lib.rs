//! The privileged core of a minimal kernel: a first-in-first-out run queue,
//! the life cycle of a task, the address space and register state a user
//! program runs in, the system-call interface, and the loop that crosses the
//! boundary between kernel and user mode.

pub mod cpu;
pub mod exec;
pub mod sched;
pub mod syscall;
pub mod task;
pub mod vm;
