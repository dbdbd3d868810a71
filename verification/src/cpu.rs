//! The register state of a user program and the reasons for which the
//! processor hands control back to the kernel.

use vstd::prelude::*;

verus! {

/// The trap number with which the processor reports a system call.
pub const SYSCALL_TRAP: u64 = 0x100;

/// The vector of the divide error.
pub const TRAP_DIVIDE_ERROR: u64 = 0;

/// The vector of the invalid-opcode exception.
pub const TRAP_INVALID_OPCODE: u64 = 6;

/// The vector of the general-protection fault.
pub const TRAP_GENERAL_PROTECTION: u64 = 13;

/// The vector of the page fault.
pub const TRAP_PAGE_FAULT: u64 = 14;

/// The saved registers of a user program: sixteen general-purpose registers
/// and the instruction pointer.
///
/// The kernel changes a snapshot only while the program it belongs to is not
/// running in user mode.
#[derive(Clone, Copy, Debug, PartialEq, Eq, Structural)]
pub struct CpuContext {
    pub rax: u64,
    pub rbx: u64,
    pub rcx: u64,
    pub rdx: u64,
    pub rsi: u64,
    pub rdi: u64,
    pub rbp: u64,
    pub rsp: u64,
    pub r8: u64,
    pub r9: u64,
    pub r10: u64,
    pub r11: u64,
    pub r12: u64,
    pub r13: u64,
    pub r14: u64,
    pub r15: u64,
    pub rip: u64,
}

impl CpuContext {
    /// The snapshot in which every register is zero.
    pub open spec fn zeroed() -> CpuContext {
        CpuContext {
            rax: 0,
            rbx: 0,
            rcx: 0,
            rdx: 0,
            rsi: 0,
            rdi: 0,
            rbp: 0,
            rsp: 0,
            r8: 0,
            r9: 0,
            r10: 0,
            r11: 0,
            r12: 0,
            r13: 0,
            r14: 0,
            r15: 0,
            rip: 0,
        }
    }

    /// The argument registers of a system call, in the order of the
    /// arguments: `rdi`, `rsi`, `rdx`, `r10`.
    pub open spec fn args(self) -> Seq<u64> {
        seq![self.rdi, self.rsi, self.rdx, self.r10]
    }

    /// A snapshot with every register zero.
    pub fn new() -> (ctx: CpuContext)
        ensures
            ctx == CpuContext::zeroed(),
    {
        CpuContext {
            rax: 0,
            rbx: 0,
            rcx: 0,
            rdx: 0,
            rsi: 0,
            rdi: 0,
            rbp: 0,
            rsp: 0,
            r8: 0,
            r9: 0,
            r10: 0,
            r11: 0,
            r12: 0,
            r13: 0,
            r14: 0,
            r15: 0,
            rip: 0,
        }
    }

    /// The address of the instruction at which the program goes on.
    pub fn instruction_pointer(&self) -> (ip: u64)
        ensures
            ip == self.rip,
    {
        self.rip
    }

    /// Makes the program go on at `ip`. No other register changes.
    pub fn set_instruction_pointer(&mut self, ip: u64)
        ensures
            *final(self) == (CpuContext { rip: ip, ..*old(self) }),
    {
        self.rip = ip;
    }

    /// The number of the system call that the program asks for: the first
    /// slot of the request, `rax`.
    pub fn syscall_number(&self) -> (number: u64)
        ensures
            number == self.rax,
    {
        self.rax
    }

    /// Argument `index` of a system call, counted from zero. A system call has
    /// four argument registers: a larger index gives `None`.
    pub fn syscall_arg(&self, index: usize) -> (arg: Option<u64>)
        ensures
            arg == if index < 4 {
                Some(self.args()[index as int])
            } else {
                None
            },
    {
        if index == 0 {
            Some(self.rdi)
        } else if index == 1 {
            Some(self.rsi)
        } else if index == 2 {
            Some(self.rdx)
        } else if index == 3 {
            Some(self.r10)
        } else {
            None
        }
    }

    /// Stores the result of a system call where the program looks for it, in
    /// `rax`. No other register changes.
    pub fn set_syscall_result(&mut self, value: u64)
        ensures
            *final(self) == (CpuContext { rax: value, ..*old(self) }),
    {
        self.rax = value;
    }
}

/// What the processor reports when it leaves user mode.
#[derive(Clone, Copy, Debug, PartialEq, Eq, Structural)]
pub struct Trap {
    /// The trap number: an exception vector, or `SYSCALL_TRAP`.
    pub number: u64,
    /// The error code that came with the trap; zero where the trap has none.
    pub error_code: u64,
    /// The address whose access failed, for a page fault; otherwise the
    /// address of the instruction that trapped.
    pub address: u64,
}

/// The kinds of fault that the kernel tells apart in its diagnostics.
#[derive(Clone, Copy, Debug, PartialEq, Eq, Structural)]
pub enum FaultKind {
    /// A division by zero, or a quotient that does not fit.
    DivideError,
    /// An illegal instruction.
    InvalidOpcode,
    /// A general-protection violation.
    GeneralProtection,
    /// An access to memory that is not mapped, or not with the rights needed.
    PageFault,
    /// Any other trap. It is a fault like the others.
    Unclassified,
}

/// A fault raised by a user program, as the diagnostics show it.
#[derive(Clone, Copy, Debug, PartialEq, Eq, Structural)]
pub struct Fault {
    pub kind: FaultKind,
    /// The trap as the processor reported it.
    pub trap: Trap,
}

/// Why control came back from user mode.
#[derive(Clone, Copy, Debug, PartialEq, Eq, Structural)]
pub enum ReturnReason {
    /// The program issued a system call.
    Syscall,
    /// The program raised a fault.
    Fault(Fault),
}

/// The kind of fault that a trap number stands for.
pub open spec fn spec_fault_kind(number: u64) -> FaultKind {
    if number == TRAP_DIVIDE_ERROR {
        FaultKind::DivideError
    } else if number == TRAP_INVALID_OPCODE {
        FaultKind::InvalidOpcode
    } else if number == TRAP_GENERAL_PROTECTION {
        FaultKind::GeneralProtection
    } else if number == TRAP_PAGE_FAULT {
        FaultKind::PageFault
    } else {
        FaultKind::Unclassified
    }
}

/// The reason that a trap stands for: a system call where the trap number is
/// `SYSCALL_TRAP`, a fault that carries the whole trap for every other number.
pub open spec fn spec_classify(trap: Trap) -> ReturnReason {
    if trap.number == SYSCALL_TRAP {
        ReturnReason::Syscall
    } else {
        ReturnReason::Fault(Fault { kind: spec_fault_kind(trap.number), trap })
    }
}

/// Tells the kind of fault from a trap number.
pub fn fault_kind(number: u64) -> (kind: FaultKind)
    ensures
        kind == spec_fault_kind(number),
{
    if number == TRAP_DIVIDE_ERROR {
        FaultKind::DivideError
    } else if number == TRAP_INVALID_OPCODE {
        FaultKind::InvalidOpcode
    } else if number == TRAP_GENERAL_PROTECTION {
        FaultKind::GeneralProtection
    } else if number == TRAP_PAGE_FAULT {
        FaultKind::PageFault
    } else {
        FaultKind::Unclassified
    }
}

/// Classifies a trap as a system call or as a fault.
pub fn classify(trap: Trap) -> (reason: ReturnReason)
    ensures
        reason == spec_classify(trap),
{
    if trap.number == SYSCALL_TRAP {
        ReturnReason::Syscall
    } else {
        ReturnReason::Fault(Fault { kind: fault_kind(trap.number), trap })
    }
}

/// Classification is total and unambiguous: every trap is a system call or a
/// fault and never both, the trap number alone decides which, and a fault
/// keeps everything that the processor reported.
pub proof fn lemma_classification_total(trap: Trap)
    ensures
        (spec_classify(trap) is Syscall) != (spec_classify(trap) is Fault),
        spec_classify(trap) is Syscall <==> trap.number == SYSCALL_TRAP,
        spec_classify(trap) matches ReturnReason::Fault(fault) ==> fault.trap == trap,
{
}

} // verus!
