//! The system-call interface: how a request is read from the registers of a
//! user program and what the kernel does for it.
//!
//! A request is the system-call number in `rax` and up to four arguments in
//! `rdi`, `rsi`, `rdx` and `r10`. The dispatcher decodes the registers into a
//! [`Syscall`] first and works on that value from then on. It only decides:
//! the bytes to put out and the decision how to go on are handed back to the
//! caller, who owns the output sink and the machine.

use crate::cpu::CpuContext;
use crate::vm::{
    accessible, contents, image, lemma_map_then_read, AddressSpace, MappedByte, Perms,
};
use vstd::prelude::*;

verus! {

/// The number of the system call `write`.
pub const SYS_WRITE: u64 = 1;

/// The number of the system call `shutdown`.
pub const SYS_SHUTDOWN: u64 = 48;

/// The number of the system call `exit`.
pub const SYS_EXIT: u64 = 60;

/// The length in bytes of the instruction that issues a system call.
pub const SYSCALL_INSTRUCTION_LEN: u64 = 2;

/// The result of a system call that named memory which the program may not
/// read: the error number 14, negated, in two's complement.
pub const RESULT_BAD_ADDRESS: u64 = 0xffff_ffff_ffff_fff2;

/// A decoded request.
#[derive(Clone, Copy, Debug, PartialEq, Eq, Structural)]
pub enum Syscall {
    /// Put out the `len` bytes that the program holds from `buf` on. The
    /// first argument, `fd`, is carried along and not looked at.
    Write { fd: u64, buf: u64, len: u64 },
    /// Switch the machine off.
    Shutdown,
    /// End the calling task.
    Exit,
}

/// How the kernel goes on after a system call.
#[derive(Clone, Copy, Debug, PartialEq, Eq, Structural)]
pub enum Continuation {
    /// Enter the user program again.
    Resume,
    /// The task has asked to end: do not enter it again.
    ExitTask,
    /// Halt the machine, and report success or failure to the host.
    Halt { success: bool },
}

/// What a system call asks the caller to do.
#[derive(Debug, PartialEq, Eq)]
pub struct Effect {
    /// The bytes to hand to the output sink, where the call puts any out.
    pub output: Option<Vec<u8>>,
    /// How to go on.
    pub next: Continuation,
}

/// An [`Effect`] as contracts see it.
pub struct EffectView {
    pub output: Option<Seq<u8>>,
    pub next: Continuation,
}

impl View for Effect {
    type V = EffectView;

    open spec fn view(&self) -> EffectView {
        EffectView {
            output: match self.output {
                Some(bytes) => Some(bytes@),
                None => None,
            },
            next: self.next,
        }
    }
}

/// The request that the registers hold, where the number in `rax` is one that
/// the kernel knows.
pub open spec fn spec_decode(ctx: CpuContext) -> Option<Syscall> {
    if ctx.rax == SYS_WRITE {
        Some(Syscall::Write { fd: ctx.rdi, buf: ctx.rsi, len: ctx.rdx })
    } else if ctx.rax == SYS_SHUTDOWN {
        Some(Syscall::Shutdown)
    } else if ctx.rax == SYS_EXIT {
        Some(Syscall::Exit)
    } else {
        None
    }
}

/// The registers with which a program goes on after a system call that gave
/// `result`: the result stands in `rax`, and the instruction pointer has moved
/// past the instruction that issued the call.
pub open spec fn spec_returned(ctx: CpuContext, result: u64) -> CpuContext {
    CpuContext {
        rax: result,
        rip: ((ctx.rip + SYSCALL_INSTRUCTION_LEN) % 0x1_0000_0000_0000_0000) as u64,
        ..ctx
    }
}

/// What performing `call` does to the registers `ctx` of a program whose
/// memory is `mem`, and what it asks of the caller.
///
/// `write` puts out the bytes of the buffer and gives their number where the
/// program may read the whole buffer. Where it may not, the call gives
/// `RESULT_BAD_ADDRESS` and puts nothing out. Either way the program goes on.
/// `shutdown` halts the machine with success, `exit` ends the task, and
/// neither touches the registers.
pub open spec fn spec_perform(call: Syscall, ctx: CpuContext, mem: Map<int, MappedByte>) -> (
    CpuContext,
    EffectView,
) {
    match call {
        Syscall::Write { fd, buf, len } => {
            if accessible(mem, buf as int, len as int, Perms::spec_user_read()) {
                (
                    spec_returned(ctx, len),
                    EffectView {
                        output: Some(contents(mem, buf as int, len as int)),
                        next: Continuation::Resume,
                    },
                )
            } else {
                (
                    spec_returned(ctx, RESULT_BAD_ADDRESS),
                    EffectView { output: None, next: Continuation::Resume },
                )
            }
        },
        Syscall::Shutdown => (
            ctx,
            EffectView { output: None, next: Continuation::Halt { success: true } },
        ),
        Syscall::Exit => (ctx, EffectView { output: None, next: Continuation::ExitTask }),
    }
}

/// What the system call that the registers `ctx` ask for does. A number that
/// the kernel does not know halts the machine with failure.
pub open spec fn spec_dispatch(ctx: CpuContext, mem: Map<int, MappedByte>) -> (
    CpuContext,
    EffectView,
) {
    match spec_decode(ctx) {
        Some(call) => spec_perform(call, ctx, mem),
        None => (ctx, EffectView { output: None, next: Continuation::Halt { success: false } }),
    }
}

/// Reads the request out of the registers. `None` stands for a system-call
/// number that the kernel does not know.
pub fn decode(ctx: &CpuContext) -> (call: Option<Syscall>)
    ensures
        call == spec_decode(*ctx),
{
    let number: u64 = ctx.syscall_number();
    if number == SYS_WRITE {
        Some(Syscall::Write { fd: ctx.rdi, buf: ctx.rsi, len: ctx.rdx })
    } else if number == SYS_SHUTDOWN {
        Some(Syscall::Shutdown)
    } else if number == SYS_EXIT {
        Some(Syscall::Exit)
    } else {
        None
    }
}

/// Prepares the registers for the return from a system call that gave
/// `result`.
fn finish(ctx: &mut CpuContext, result: u64)
    ensures
        *final(ctx) == spec_returned(*old(ctx), result),
{
    let next: u64 = ctx.rip.wrapping_add(SYSCALL_INSTRUCTION_LEN);
    ctx.set_syscall_result(result);
    ctx.set_instruction_pointer(next);
}

/// Performs the decoded request `call` for the program with the registers
/// `ctx` and the address space `space`.
pub fn perform(call: Syscall, ctx: &mut CpuContext, space: &AddressSpace) -> (effect: Effect)
    ensures
        (*final(ctx), effect@) == spec_perform(call, *old(ctx), space@),
{
    match call {
        Syscall::Write { fd, buf, len } => {
            match space.read_bytes(buf, len, Perms::user_read()) {
                Ok(bytes) => {
                    finish(ctx, len);
                    Effect { output: Some(bytes), next: Continuation::Resume }
                },
                Err(_) => {
                    finish(ctx, RESULT_BAD_ADDRESS);
                    Effect { output: None, next: Continuation::Resume }
                },
            }
        },
        Syscall::Shutdown => Effect { output: None, next: Continuation::Halt { success: true } },
        Syscall::Exit => Effect { output: None, next: Continuation::ExitTask },
    }
}

/// Decodes and performs the system call that the registers `ctx` ask for.
pub fn dispatch(ctx: &mut CpuContext, space: &AddressSpace) -> (effect: Effect)
    ensures
        (*final(ctx), effect@) == spec_dispatch(*old(ctx), space@),
{
    match decode(ctx) {
        Some(call) => perform(call, ctx, space),
        None => Effect { output: None, next: Continuation::Halt { success: false } },
    }
}

/// `write` is faithful: when a program asks to write a part of a region that
/// is mapped for it to read, the call gives the length asked for, puts out
/// exactly the bytes that were mapped there, and lets the program go on.
pub proof fn lemma_write_round_trip(
    mem: Map<int, MappedByte>,
    base: u64,
    data: Seq<u8>,
    perms: Perms,
    ctx: CpuContext,
    offset: nat,
)
    requires
        perms.covers(Perms::spec_user_read()),
        ctx.rax == SYS_WRITE,
        ctx.rsi == base + offset,
        offset + ctx.rdx <= data.len(),
    ensures
        ({
            let after = mem.union_prefer_right(image(base as int, data, perms));
            let (regs, effect) = spec_dispatch(ctx, after);
            &&& regs.rax == ctx.rdx
            &&& effect.output == Some(data.subrange(offset as int, offset + ctx.rdx))
            &&& effect.next == Continuation::Resume
        }),
{
    lemma_map_then_read(
        mem,
        base as int,
        data,
        perms,
        Perms::spec_user_read(),
        offset as int,
        ctx.rdx as int,
    );
}

} // verus!
