//! Tasks: the units of work that the scheduler hands out.
//!
//! A task is built once, by [`TaskOptions`], and is then `Runnable`. It becomes
//! `Running` when it is selected, and `Exited` when it ends. A task that has
//! ended holds no resources and never runs again.
//!
//! A task is owned by one holder at a time: by its builder's caller, then by
//! the run queue while it waits, then by the execution loop while it runs.

use crate::cpu::CpuContext;
use crate::syscall::{dispatch, spec_dispatch, Effect};
use crate::vm::{accessible, AddressSpace, MappedByte, Perms};
use vstd::prelude::*;

verus! {

/// Where a task stands in its life.
#[derive(Clone, Copy, Debug, PartialEq, Eq, Structural)]
pub enum TaskState {
    /// Ready to run, waiting to be selected.
    Runnable,
    /// Selected, and on a processor.
    Running,
    /// Ended for good.
    Exited,
}

/// What a task does when it is first run.
#[derive(Clone, Copy, Debug, PartialEq, Eq, Structural)]
pub enum Entry {
    /// Run a routine of the kernel. The kernel knows its routines by number.
    Kernel { routine: u64 },
    /// Run the user program of the task, from its saved instruction pointer.
    User,
}

/// Why a task cannot be built.
#[derive(Clone, Copy, Debug, PartialEq, Eq, Structural)]
pub enum ConfigError {
    /// The task is to run a user program and has none.
    MissingUserSpace,
    /// The user program would start at an address that is not mapped, or not
    /// as code that a user program may execute.
    InvalidEntryPoint,
    /// Every identity has been given out.
    IdsExhausted,
}

/// What a user program runs in: its address space and its saved registers.
#[derive(Debug)]
pub struct UserSpace {
    pub space: AddressSpace,
    pub ctx: CpuContext,
}

/// A [`UserSpace`] as contracts see it.
pub struct UserSpaceView {
    /// What is mapped at which address.
    pub mem: Map<int, MappedByte>,
    pub ctx: CpuContext,
}

impl View for UserSpace {
    type V = UserSpaceView;

    open spec fn view(&self) -> UserSpaceView {
        UserSpaceView { mem: self.space@, ctx: self.ctx }
    }
}

impl UserSpace {
    /// The user space made of `space` and `ctx`.
    pub fn new(space: AddressSpace, ctx: CpuContext) -> (user: UserSpace)
        ensures
            user@ == (UserSpaceView { mem: space@, ctx }),
    {
        UserSpace { space, ctx }
    }
}

/// Whether a user program can start: its instruction pointer names an address
/// that is mapped as code a user program may execute.
pub open spec fn entry_point_valid(user: UserSpaceView) -> bool {
    accessible(user.mem, user.ctx.rip as int, 1, Perms::spec_user_execute())
}

/// The source of task identities. Each identity is given out once.
#[derive(Debug)]
pub struct TaskIds {
    next: u64,
}

impl View for TaskIds {
    type V = u64;

    /// The identity that the next task gets.
    closed spec fn view(&self) -> u64 {
        self.next
    }
}

impl TaskIds {
    /// A source that has given out no identity yet.
    pub fn new() -> (ids: TaskIds)
        ensures
            ids@ == 0,
    {
        TaskIds { next: 0 }
    }

    /// A source whose first identity is `next`, for a kernel that has given
    /// out the smaller ones already.
    pub fn starting_at(next: u64) -> (ids: TaskIds)
        ensures
            ids@ == next,
    {
        TaskIds { next }
    }

    /// The identity that the next task gets.
    pub fn peek(&self) -> (id: u64)
        ensures
            id == self@,
    {
        self.next
    }
}

/// A task as contracts see it.
pub struct TaskView {
    pub id: u64,
    pub state: TaskState,
    pub data: u64,
    pub entry: Entry,
    pub user: Option<UserSpaceView>,
}

/// A schedulable unit of execution.
#[derive(Debug)]
pub struct Task {
    id: u64,
    state: TaskState,
    data: u64,
    entry: Entry,
    user: Option<UserSpace>,
}

impl View for Task {
    type V = TaskView;

    closed spec fn view(&self) -> TaskView {
        TaskView {
            id: self.id,
            state: self.state,
            data: self.data,
            entry: self.entry,
            user: match self.user {
                Some(user) => Some(user@),
                None => None,
            },
        }
    }
}

/// The settings from which a task is built.
#[derive(Debug)]
pub struct TaskOptions {
    entry: Entry,
    data: u64,
    user: Option<UserSpace>,
}

/// [`TaskOptions`] as contracts see them.
pub struct TaskOptionsView {
    pub entry: Entry,
    pub data: u64,
    pub user: Option<UserSpaceView>,
}

impl View for TaskOptions {
    type V = TaskOptionsView;

    closed spec fn view(&self) -> TaskOptionsView {
        TaskOptionsView {
            entry: self.entry,
            data: self.data,
            user: match self.user {
                Some(user) => Some(user@),
                None => None,
            },
        }
    }
}

/// Why no task can be built from `opts` when the next identity is `next_id`,
/// if none can.
pub open spec fn config_error(opts: TaskOptionsView, next_id: u64) -> Option<ConfigError> {
    if opts.entry is User && opts.user is None {
        Some(ConfigError::MissingUserSpace)
    } else if opts.user is Some && !entry_point_valid(opts.user->0) {
        Some(ConfigError::InvalidEntryPoint)
    } else if next_id == u64::MAX {
        Some(ConfigError::IdsExhausted)
    } else {
        None
    }
}

impl TaskOptions {
    /// Settings for a task that does `entry` when it is first run. It has no
    /// user program yet, and its data slot holds zero.
    pub fn new(entry: Entry) -> (opts: TaskOptions)
        ensures
            opts@ == (TaskOptionsView { entry, data: 0, user: None }),
    {
        TaskOptions { entry, data: 0, user: None }
    }

    /// Sets what the data slot of the task holds at first.
    pub fn data(self, data: u64) -> (opts: TaskOptions)
        ensures
            opts@ == (TaskOptionsView { data, ..self@ }),
    {
        TaskOptions { entry: self.entry, data, user: self.user }
    }

    /// Sets the user space of the task, or takes it away.
    pub fn user_space(self, user: Option<UserSpace>) -> (opts: TaskOptions)
        ensures
            opts@ == (TaskOptionsView {
                user: match user {
                    Some(u) => Some(u@),
                    None => None,
                },
                ..self@
            }),
    {
        TaskOptions { entry: self.entry, data: self.data, user }
    }

    /// Builds the task. It is `Runnable`, carries the next identity of `ids`,
    /// and no scheduler knows of it yet.
    ///
    /// Where the settings do not fit together no task is built and no
    /// identity is used up.
    pub fn build(self, ids: &mut TaskIds) -> (result: Result<Task, ConfigError>)
        ensures
            match config_error(self@, old(ids)@) {
                Some(e) => result == Err::<Task, ConfigError>(e) && final(ids)@ == old(ids)@,
                None => {
                    &&& result matches Ok(task)
                    &&& task@ == (TaskView {
                        id: old(ids)@,
                        state: TaskState::Runnable,
                        data: self@.data,
                        entry: self@.entry,
                        user: self@.user,
                    })
                    &&& final(ids)@ == old(ids)@ + 1
                },
            },
    {
        match &self.user {
            None => {
                if let Entry::User = self.entry {
                    return Err(ConfigError::MissingUserSpace);
                }
            },
            Some(user) => {
                if !user.space.is_mapped(user.ctx.rip, Perms::user_execute()) {
                    return Err(ConfigError::InvalidEntryPoint);
                }
            },
        }
        if ids.next == u64::MAX {
            return Err(ConfigError::IdsExhausted);
        }
        let id: u64 = ids.next;
        ids.next = id + 1;
        Ok(Task { id, state: TaskState::Runnable, data: self.data, entry: self.entry, user: self.user })
    }
}

impl Task {
    /// The identity of the task. It never changes.
    pub fn id(&self) -> (id: u64)
        ensures
            id == self@.id,
    {
        self.id
    }

    /// Where the task stands in its life.
    pub fn state(&self) -> (state: TaskState)
        ensures
            state == self@.state,
    {
        self.state
    }

    /// What the task does when it is first run.
    pub fn entry(&self) -> (entry: Entry)
        ensures
            entry == self@.entry,
    {
        self.entry
    }

    /// What the data slot holds.
    pub fn data(&self) -> (data: u64)
        ensures
            data == self@.data,
    {
        self.data
    }

    /// Stores `data` in the data slot. Nothing else changes.
    pub fn set_data(&mut self, data: u64)
        ensures
            final(self)@ == (TaskView { data, ..old(self)@ }),
    {
        self.data = data;
    }

    /// The user space of the task, where it has one.
    pub fn user(&self) -> (user: Option<&UserSpace>)
        ensures
            user is Some == self@.user is Some,
            user matches Some(u) ==> u@ == self@.user->0,
    {
        self.user.as_ref()
    }

    /// Marks the task as selected: a `Runnable` task becomes `Running`, and
    /// nothing else about it changes. A task in another state stays as it is.
    /// Returns whether the task is now newly `Running`.
    pub fn run(&mut self) -> (started: bool)
        ensures
            started == (old(self)@.state is Runnable),
            final(self)@ == if started {
                TaskView { state: TaskState::Running, ..old(self)@ }
            } else {
                old(self)@
            },
    {
        match self.state {
            TaskState::Runnable => {
                self.state = TaskState::Running;
                true
            },
            _ => false,
        }
    }

    /// Ends the task: it is `Exited` from now on and gives up its user space.
    /// Identity, entry and data slot stay.
    pub fn exit(&mut self)
        ensures
            final(self)@ == (TaskView { state: TaskState::Exited, user: None, ..old(self)@ }),
    {
        self.user = None;
        self.state = TaskState::Exited;
    }

    /// Replaces the saved registers of the user program by `ctx`. A task
    /// without a user program stays as it is.
    pub fn set_context(&mut self, ctx: CpuContext)
        ensures
            final(self)@ == (TaskView {
                user: match old(self)@.user {
                    Some(user) => Some(UserSpaceView { ctx, ..user }),
                    None => None,
                },
                ..old(self)@
            }),
    {
        match &mut self.user {
            Some(user) => {
                user.ctx = ctx;
            },
            None => {},
        }
    }

    /// Performs the system call that the saved registers of the user program
    /// ask for, on those registers and the address space of the program.
    /// Nothing else about the task changes. A task without a user program
    /// stays as it is, and `None` is returned.
    pub fn syscall(&mut self) -> (effect: Option<Effect>)
        ensures
            match old(self)@.user {
                Some(user) => {
                    &&& effect matches Some(e)
                    &&& e@ == spec_dispatch(user.ctx, user.mem).1
                    &&& final(self)@ == (TaskView {
                        user: Some(
                            UserSpaceView { ctx: spec_dispatch(user.ctx, user.mem).0, ..user },
                        ),
                        ..old(self)@
                    })
                },
                None => effect is None && final(self)@ == old(self)@,
            },
    {
        match &mut self.user {
            Some(user) => {
                let effect = dispatch(&mut user.ctx, &user.space);
                Some(effect)
            },
            None => None,
        }
    }
}

} // verus!
