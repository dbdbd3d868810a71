//! The execution loop: the state machine that takes one task across the
//! boundary between kernel and user mode, again and again, until the task
//! ends.
//!
//! The loop decides and never acts on the machine. Each step answers with an
//! [`Action`] for the caller to perform: enter user mode, hand bytes to the
//! output sink, print a fault report, halt the machine, or go back to the
//! scheduler. When user mode hands control back, the caller delivers the trap
//! to the loop.
//!
//! The saved instruction pointer that comes with a trap is the address of the
//! instruction that trapped.

use crate::cpu::{classify, spec_classify, CpuContext, Fault, ReturnReason, Trap, SYSCALL_TRAP};
use crate::syscall::{spec_dispatch, Continuation, SYS_EXIT};
use crate::task::{Task, TaskState, TaskView, UserSpaceView};
use vstd::prelude::*;

verus! {

/// Where the loop stands with its task.
#[derive(Clone, Copy, Debug, PartialEq, Eq, Structural)]
pub enum LoopState {
    /// About to enter the user program.
    EnterUser,
    /// The user program is running.
    InUser,
    /// The user program has issued a system call that is yet to be handled.
    HandleSyscall,
    /// The user program has raised a fault that is yet to be reported.
    HandleFault(Fault),
    /// The task has ended. The loop stays here.
    Exit,
}

/// What the kernel prints about a fault before the task that raised it goes.
#[derive(Clone, Copy, Debug, PartialEq, Eq, Structural)]
pub struct FaultReport {
    /// The identity of the task.
    pub task: u64,
    /// The kind of fault, and the trap as the processor reported it.
    pub fault: Fault,
    /// The registers of the user program at the fault.
    pub ctx: CpuContext,
}

/// What the caller of the loop has to do next.
#[derive(Debug, PartialEq, Eq)]
pub enum Action {
    /// Make the address space of the task the active one and run the user
    /// program with these registers. Deliver the trap that ends the run.
    EnterUser(CpuContext),
    /// The user program is running: nothing to do but to deliver its trap.
    AwaitTrap,
    /// Nothing to do outside: take the next step.
    Continue,
    /// Hand these bytes to the output sink, then take the next step.
    Emit(Vec<u8>),
    /// Print this report. The task has ended.
    Report(FaultReport),
    /// Halt the machine and report success or failure to the host.
    Halt { success: bool },
    /// The task has ended: go back to the scheduler.
    Yield,
}

/// An [`Action`] as contracts see it.
pub enum ActionView {
    EnterUser(CpuContext),
    AwaitTrap,
    Continue,
    Emit(Seq<u8>),
    Report(FaultReport),
    Halt { success: bool },
    Yield,
}

impl View for Action {
    type V = ActionView;

    open spec fn view(&self) -> ActionView {
        match *self {
            Action::EnterUser(ctx) => ActionView::EnterUser(ctx),
            Action::AwaitTrap => ActionView::AwaitTrap,
            Action::Continue => ActionView::Continue,
            Action::Emit(bytes) => ActionView::Emit(bytes@),
            Action::Report(report) => ActionView::Report(report),
            Action::Halt { success } => ActionView::Halt { success },
            Action::Yield => ActionView::Yield,
        }
    }
}

/// The execution loop of one task. It owns the task while the task runs.
#[derive(Debug)]
pub struct ExecLoop {
    task: Task,
    state: LoopState,
}

/// An [`ExecLoop`] as contracts see it.
pub struct LoopView {
    pub task: TaskView,
    pub state: LoopState,
}

impl View for ExecLoop {
    type V = LoopView;

    closed spec fn view(&self) -> LoopView {
        LoopView { task: self.task@, state: self.state }
    }
}

impl LoopView {
    /// What holds of every loop: its task is `Running` and has a user
    /// program until the loop reaches `Exit`; from then on the task is
    /// `Exited` and has given up its user program.
    pub open spec fn wf(self) -> bool {
        if self.state is Exit {
            self.task.state is Exited && self.task.user is None
        } else {
            self.task.state is Running && self.task.user is Some
        }
    }

    /// The loop after its task has ended.
    pub open spec fn ended(self) -> LoopView {
        LoopView {
            task: TaskView { state: TaskState::Exited, user: None, ..self.task },
            state: LoopState::Exit,
        }
    }
}

/// The loop that runs `task`, where there is one: the task has to be
/// `Runnable` and to have a user program.
pub open spec fn spec_start(task: TaskView) -> Option<LoopView> {
    if task.state is Runnable && task.user is Some {
        Some(
            LoopView {
                task: TaskView { state: TaskState::Running, ..task },
                state: LoopState::EnterUser,
            },
        )
    } else {
        None
    }
}

/// One step of the loop: the loop after the step, and what the caller has to
/// do.
///
/// - `EnterUser` asks the caller to enter the user program and goes to
///   `InUser`.
/// - `InUser` waits for the trap.
/// - `HandleSyscall` performs the system call on the saved registers. Where
///   the program goes on, the loop is back at `EnterUser`, and the bytes that
///   the call puts out are handed to the caller. Where the call ends the task
///   or halts the machine, the task ends and the loop is at `Exit`.
/// - `HandleFault` hands out the report, ends the task and goes to `Exit`.
/// - `Exit` stays, and sends the caller back to the scheduler.
pub open spec fn spec_step(l: LoopView) -> (LoopView, ActionView) {
    match l.state {
        LoopState::EnterUser => (
            LoopView { state: LoopState::InUser, ..l },
            ActionView::EnterUser(l.task.user->0.ctx),
        ),
        LoopState::InUser => (l, ActionView::AwaitTrap),
        LoopState::HandleSyscall => {
            let user = l.task.user->0;
            let (ctx, effect) = spec_dispatch(user.ctx, user.mem);
            match effect.next {
                Continuation::Resume => (
                    LoopView {
                        task: TaskView { user: Some(UserSpaceView { ctx, ..user }), ..l.task },
                        state: LoopState::EnterUser,
                    },
                    match effect.output {
                        Some(bytes) => ActionView::Emit(bytes),
                        None => ActionView::Continue,
                    },
                ),
                Continuation::ExitTask => (l.ended(), ActionView::Yield),
                Continuation::Halt { success } => (l.ended(), ActionView::Halt { success }),
            }
        },
        LoopState::HandleFault(fault) => (
            l.ended(),
            ActionView::Report(FaultReport { task: l.task.id, fault, ctx: l.task.user->0.ctx }),
        ),
        LoopState::Exit => (l, ActionView::Yield),
    }
}

/// The loop after the trap `trap` has been delivered with the registers
/// `ctx`, and the reason found for the trap.
///
/// A loop at `InUser` saves the registers and goes on to handle what the trap
/// stands for. A loop in another state has no program in user mode: it
/// refuses the trap and stays as it is.
pub open spec fn spec_deliver(l: LoopView, trap: Trap, ctx: CpuContext) -> (
    LoopView,
    Option<ReturnReason>,
) {
    if l.state is InUser {
        let task = TaskView {
            user: match l.task.user {
                Some(user) => Some(UserSpaceView { ctx, ..user }),
                None => None,
            },
            ..l.task
        };
        match spec_classify(trap) {
            ReturnReason::Syscall => (
                LoopView { task, state: LoopState::HandleSyscall },
                Some(ReturnReason::Syscall),
            ),
            ReturnReason::Fault(fault) => (
                LoopView { task, state: LoopState::HandleFault(fault) },
                Some(ReturnReason::Fault(fault)),
            ),
        }
    } else {
        (l, None)
    }
}

/// One thing that happens to a loop.
pub enum LoopInput {
    /// The caller takes a step.
    Step,
    /// The caller delivers a trap with the registers that came with it.
    Trap(Trap, CpuContext),
}

/// The loop after `inputs` have happened to it one after the other, and the
/// actions that its steps asked for, in their order.
pub open spec fn spec_run(l: LoopView, inputs: Seq<LoopInput>) -> (LoopView, Seq<ActionView>)
    decreases inputs.len(),
{
    if inputs.len() == 0 {
        (l, Seq::empty())
    } else {
        let (before, actions) = spec_run(l, inputs.drop_last());
        match inputs.last() {
            LoopInput::Step => (spec_step(before).0, actions.push(spec_step(before).1)),
            LoopInput::Trap(trap, ctx) => (spec_deliver(before, trap, ctx).0, actions),
        }
    }
}

/// Whatever happens to a loop leaves it well formed.
pub proof fn lemma_run_keeps_wf(l: LoopView, inputs: Seq<LoopInput>)
    requires
        l.wf(),
    ensures
        spec_run(l, inputs).0.wf(),
    decreases inputs.len(),
{
    if inputs.len() > 0 {
        lemma_run_keeps_wf(l, inputs.drop_last());
    }
}

/// A task that has ended is never entered again: whatever happens to a loop
/// that stands at `Exit`, the loop and its task stay as they are, and each
/// step only sends the caller back to the scheduler.
pub proof fn lemma_exit_is_final(l: LoopView, inputs: Seq<LoopInput>)
    requires
        l.state is Exit,
    ensures
        spec_run(l, inputs).0 == l,
        forall|i: int|
            0 <= i < spec_run(l, inputs).1.len() ==> spec_run(l, inputs).1[i] == ActionView::Yield,
    decreases inputs.len(),
{
    if inputs.len() > 0 {
        lemma_exit_is_final(l, inputs.drop_last());
    }
}

/// The system call `exit` ends the task for good: when a program in user mode
/// issues it, the step that handles the call leaves the task `Exited` and the
/// loop at `Exit`, and nothing that happens afterwards enters the user program
/// again.
pub proof fn lemma_exit_syscall_ends_task(
    l: LoopView,
    trap: Trap,
    ctx: CpuContext,
    inputs: Seq<LoopInput>,
)
    requires
        l.wf(),
        l.state is InUser,
        trap.number == SYSCALL_TRAP,
        ctx.rax == SYS_EXIT,
    ensures
        ({
            let handled = spec_step(spec_deliver(l, trap, ctx).0);
            let later = spec_run(handled.0, inputs);
            &&& handled.0 == l.ended()
            &&& handled.0.task.state is Exited
            &&& handled.1 == ActionView::Yield
            &&& later.0 == l.ended()
            &&& forall|i: int| 0 <= i < later.1.len() ==> !(later.1[i] is EnterUser)
        }),
{
    lemma_exit_is_final(l.ended(), inputs);
}

/// Every fault is fatal to the task that raised it, and to nothing else: when
/// a program in user mode raises a trap that is no system call, the step that
/// handles it hands out a report with the trap and the registers as they were
/// delivered, and leaves the task `Exited` and the loop at `Exit`.
pub proof fn lemma_fault_ends_task(l: LoopView, trap: Trap, ctx: CpuContext)
    requires
        l.wf(),
        l.state is InUser,
        trap.number != SYSCALL_TRAP,
    ensures
        ({
            let handled = spec_step(spec_deliver(l, trap, ctx).0);
            &&& handled.0 == l.ended()
            &&& handled.0.task.state is Exited
            &&& handled.1 matches ActionView::Report(report)
            &&& report.task == l.task.id
            &&& report.fault.trap == trap
            &&& report.ctx == ctx
        }),
{
}

impl ExecLoop {
    #[verifier::type_invariant]
    spec fn inv(self) -> bool {
        self@.wf()
    }

    /// Takes over `task` to run its user program: the task becomes `Running`
    /// and the loop stands at `EnterUser`.
    ///
    /// A task that is not `Runnable`, or that has no user program, is handed
    /// back as it came.
    pub fn start(task: Task) -> (result: Result<ExecLoop, Task>)
        ensures
            match spec_start(task@) {
                Some(l) => result matches Ok(lp) && lp@ == l && lp@.wf(),
                None => result matches Err(t) && t@ == task@,
            },
    {
        let mut task = task;
        let runnable = match task.state() {
            TaskState::Runnable => true,
            _ => false,
        };
        if runnable && task.user().is_some() {
            task.run();
            Ok(ExecLoop { task, state: LoopState::EnterUser })
        } else {
            Err(task)
        }
    }

    /// Where the loop stands.
    pub fn state(&self) -> (state: LoopState)
        ensures
            state == self@.state,
            self@.wf(),
    {
        proof {
            use_type_invariant(self);
        }
        self.state
    }

    /// The task of the loop.
    pub fn task(&self) -> (task: &Task)
        ensures
            task@ == self@.task,
            self@.wf(),
    {
        proof {
            use_type_invariant(self);
        }
        &self.task
    }

    /// Whether the task has ended.
    pub fn is_done(&self) -> (done: bool)
        ensures
            done == (self@.state is Exit),
    {
        match self.state {
            LoopState::Exit => true,
            _ => false,
        }
    }

    /// Gives the task back and ends the loop.
    pub fn into_task(self) -> (task: Task)
        ensures
            task@ == self@.task,
    {
        self.task
    }

    /// Takes one step: returns the loop after the step and what the caller has
    /// to do.
    pub fn step(self) -> (next: (ExecLoop, Action))
        ensures
            (next.0@, next.1@) == spec_step(self@),
            next.0@.wf(),
    {
        proof {
            use_type_invariant(&self);
        }
        let ExecLoop { task, state } = self;
        let mut task = task;
        match state {
            LoopState::EnterUser => {
                let ctx = task.user().unwrap().ctx;
                (ExecLoop { task, state: LoopState::InUser }, Action::EnterUser(ctx))
            },
            LoopState::InUser => (ExecLoop { task, state }, Action::AwaitTrap),
            LoopState::HandleSyscall => {
                let effect = task.syscall().unwrap();
                match effect.next {
                    Continuation::Resume => {
                        let action = match effect.output {
                            Some(bytes) => Action::Emit(bytes),
                            None => Action::Continue,
                        };
                        (ExecLoop { task, state: LoopState::EnterUser }, action)
                    },
                    Continuation::ExitTask => {
                        task.exit();
                        (ExecLoop { task, state: LoopState::Exit }, Action::Yield)
                    },
                    Continuation::Halt { success } => {
                        task.exit();
                        (ExecLoop { task, state: LoopState::Exit }, Action::Halt { success })
                    },
                }
            },
            LoopState::HandleFault(fault) => {
                let report = FaultReport { task: task.id(), fault, ctx: task.user().unwrap().ctx };
                task.exit();
                (ExecLoop { task, state: LoopState::Exit }, Action::Report(report))
            },
            LoopState::Exit => (ExecLoop { task, state }, Action::Yield),
        }
    }

    /// Delivers the trap with which the user program handed control back,
    /// together with the registers of the program at that moment. Returns the
    /// loop after the delivery and what the trap stands for, or `None` where
    /// the loop refuses it.
    pub fn deliver(self, trap: Trap, ctx: CpuContext) -> (next: (ExecLoop, Option<ReturnReason>))
        ensures
            (next.0@, next.1) == spec_deliver(self@, trap, ctx),
            next.0@.wf(),
    {
        proof {
            use_type_invariant(&self);
        }
        let ExecLoop { task, state } = self;
        let mut task = task;
        match state {
            LoopState::InUser => {
                task.set_context(ctx);
                let reason = classify(trap);
                let state = match reason {
                    ReturnReason::Syscall => LoopState::HandleSyscall,
                    ReturnReason::Fault(fault) => LoopState::HandleFault(fault),
                };
                (ExecLoop { task, state }, Some(reason))
            },
            _ => (ExecLoop { task, state }, None),
        }
    }
}

} // verus!
