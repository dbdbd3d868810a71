use kern_core::cpu::CpuContext;
use kern_core::syscall::{Continuation, SYS_WRITE};
use kern_core::task::{ConfigError, Entry, Task, TaskIds, TaskOptions, TaskState, UserSpace};
use kern_core::vm::{AddressSpace, Perms};

const RX_USER: Perms = Perms { read: true, write: false, execute: true, user: true };
const RW_USER: Perms = Perms { read: true, write: true, execute: false, user: true };
const RX_KERNEL: Perms = Perms { read: true, write: false, execute: true, user: false };

fn user_space(code_perms: Perms, rip: u64) -> UserSpace {
    let mut space = AddressSpace::new();
    assert_eq!(space.map(0x40_0000, vec![0x90; 4096], code_perms), Ok(()));
    assert_eq!(space.map(0x60_0000, b"data".to_vec(), RW_USER), Ok(()));
    let mut ctx = CpuContext::new();
    ctx.rip = rip;
    UserSpace::new(space, ctx)
}

fn user_task(ids: &mut TaskIds) -> Task {
    TaskOptions::new(Entry::User)
        .user_space(Some(user_space(RX_USER, 0x40_0000)))
        .build(ids)
        .unwrap()
}

#[test]
fn kernel_task_is_built_runnable() {
    let mut ids = TaskIds::new();
    let task = TaskOptions::new(Entry::Kernel { routine: 3 }).data(0).build(&mut ids).unwrap();
    assert_eq!(task.id(), 0);
    assert_eq!(task.state(), TaskState::Runnable);
    assert_eq!(task.data(), 0);
    assert_eq!(task.entry(), Entry::Kernel { routine: 3 });
    assert!(task.user().is_none());
}

#[test]
fn user_task_is_built_with_its_user_space() {
    let mut ids = TaskIds::new();
    let task = TaskOptions::new(Entry::User)
        .data(42)
        .user_space(Some(user_space(RX_USER, 0x40_0010)))
        .build(&mut ids)
        .unwrap();
    assert_eq!(task.state(), TaskState::Runnable);
    assert_eq!(task.data(), 42);
    assert_eq!(task.entry(), Entry::User);
    let user = task.user().unwrap();
    assert_eq!(user.ctx.rip, 0x40_0010);
    assert_eq!(user.space.read_bytes(0x60_0000, 4, Perms::user_read()), Ok(b"data".to_vec()));
}

#[test]
fn data_slot_defaults_to_zero_and_last_setting_wins() {
    let mut ids = TaskIds::new();
    let a = TaskOptions::new(Entry::Kernel { routine: 0 }).build(&mut ids).unwrap();
    assert_eq!(a.data(), 0);
    let b = TaskOptions::new(Entry::Kernel { routine: 0 }).data(5).data(6).build(&mut ids).unwrap();
    assert_eq!(b.data(), 6);
}

#[test]
fn user_space_can_be_taken_away_again() {
    let mut ids = TaskIds::new();
    let task = TaskOptions::new(Entry::Kernel { routine: 1 })
        .user_space(Some(user_space(RX_USER, 0x40_0000)))
        .user_space(None)
        .build(&mut ids)
        .unwrap();
    assert!(task.user().is_none());
}

#[test]
fn identities_are_given_out_once() {
    let mut ids = TaskIds::new();
    assert_eq!(ids.peek(), 0);
    let mut seen: Vec<u64> = Vec::new();
    for n in 0..50u64 {
        let task = TaskOptions::new(Entry::Kernel { routine: n }).build(&mut ids).unwrap();
        assert_eq!(task.id(), n);
        assert!(!seen.contains(&task.id()));
        seen.push(task.id());
        assert_eq!(ids.peek(), n + 1);
    }
}

#[test]
fn user_task_without_user_space_is_refused() {
    let mut ids = TaskIds::new();
    let err = TaskOptions::new(Entry::User).data(1).build(&mut ids).unwrap_err();
    assert_eq!(err, ConfigError::MissingUserSpace);
    assert_eq!(ids.peek(), 0);
}

#[test]
fn entry_point_outside_the_mapping_is_refused() {
    let mut ids = TaskIds::starting_at(7);
    for rip in [0u64, 0x3f_ffff, 0x40_1000, 0x60_0000, u64::MAX] {
        let err = TaskOptions::new(Entry::User)
            .user_space(Some(user_space(RX_USER, rip)))
            .build(&mut ids)
            .unwrap_err();
        assert_eq!(err, ConfigError::InvalidEntryPoint);
    }
    assert_eq!(ids.peek(), 7);
    let ok = TaskOptions::new(Entry::User)
        .user_space(Some(user_space(RX_USER, 0x40_0fff)))
        .build(&mut ids)
        .unwrap();
    assert_eq!(ok.id(), 7);
}

#[test]
fn entry_point_without_the_rights_is_refused() {
    let mut ids = TaskIds::new();
    for perms in [RW_USER, RX_KERNEL] {
        let err = TaskOptions::new(Entry::User)
            .user_space(Some(user_space(perms, 0x40_0000)))
            .build(&mut ids)
            .unwrap_err();
        assert_eq!(err, ConfigError::InvalidEntryPoint);
    }
    let err = TaskOptions::new(Entry::Kernel { routine: 2 })
        .user_space(Some(user_space(RW_USER, 0x40_0000)))
        .build(&mut ids)
        .unwrap_err();
    assert_eq!(err, ConfigError::InvalidEntryPoint);
    assert_eq!(ids.peek(), 0);
}

#[test]
fn missing_user_space_is_reported_before_exhausted_identities() {
    let mut ids = TaskIds::starting_at(u64::MAX);
    let err = TaskOptions::new(Entry::User).build(&mut ids).unwrap_err();
    assert_eq!(err, ConfigError::MissingUserSpace);
    let err = TaskOptions::new(Entry::User)
        .user_space(Some(user_space(RW_USER, 0x40_0000)))
        .build(&mut ids)
        .unwrap_err();
    assert_eq!(err, ConfigError::InvalidEntryPoint);
}

#[test]
fn exhausted_identities_are_reported() {
    let mut ids = TaskIds::starting_at(u64::MAX - 1);
    let last = TaskOptions::new(Entry::Kernel { routine: 0 }).build(&mut ids).unwrap();
    assert_eq!(last.id(), u64::MAX - 1);
    assert_eq!(ids.peek(), u64::MAX);
    let err = TaskOptions::new(Entry::Kernel { routine: 0 }).build(&mut ids).unwrap_err();
    assert_eq!(err, ConfigError::IdsExhausted);
    let err = TaskOptions::new(Entry::User)
        .user_space(Some(user_space(RX_USER, 0x40_0000)))
        .build(&mut ids)
        .unwrap_err();
    assert_eq!(err, ConfigError::IdsExhausted);
    assert_eq!(ids.peek(), u64::MAX);
}

#[test]
fn run_makes_a_runnable_task_running_once() {
    let mut ids = TaskIds::new();
    let mut task = user_task(&mut ids);
    assert!(task.run());
    assert_eq!(task.state(), TaskState::Running);
    assert!(task.user().is_some());
    assert!(!task.run());
    assert_eq!(task.state(), TaskState::Running);
}

#[test]
fn exit_releases_the_user_space_and_is_final() {
    let mut ids = TaskIds::new();
    let mut task = TaskOptions::new(Entry::User)
        .data(9)
        .user_space(Some(user_space(RX_USER, 0x40_0000)))
        .build(&mut ids)
        .unwrap();
    assert!(task.run());
    task.exit();
    assert_eq!(task.state(), TaskState::Exited);
    assert!(task.user().is_none());
    assert_eq!(task.id(), 0);
    assert_eq!(task.data(), 9);
    assert_eq!(task.entry(), Entry::User);
    assert!(!task.run());
    assert_eq!(task.state(), TaskState::Exited);
    task.exit();
    assert_eq!(task.state(), TaskState::Exited);
}

#[test]
fn a_task_can_exit_before_it_ever_ran() {
    let mut ids = TaskIds::new();
    let mut task = user_task(&mut ids);
    task.exit();
    assert_eq!(task.state(), TaskState::Exited);
    assert!(!task.run());
    assert_eq!(task.state(), TaskState::Exited);
}

#[test]
fn set_data_changes_the_slot_alone() {
    let mut ids = TaskIds::new();
    let mut task = user_task(&mut ids);
    task.set_data(77);
    assert_eq!(task.data(), 77);
    assert_eq!(task.id(), 0);
    assert_eq!(task.state(), TaskState::Runnable);
    assert_eq!(task.user().unwrap().ctx.rip, 0x40_0000);
}

#[test]
fn set_context_replaces_the_registers_of_a_user_task() {
    let mut ids = TaskIds::new();
    let mut task = user_task(&mut ids);
    let mut ctx = CpuContext::new();
    ctx.rax = 60;
    ctx.rip = 0x40_0008;
    task.set_context(ctx);
    assert_eq!(task.user().unwrap().ctx, ctx);
    assert_eq!(
        task.user().unwrap().space.read_bytes(0x60_0000, 4, Perms::user_read()),
        Ok(b"data".to_vec())
    );
    let mut kernel = TaskOptions::new(Entry::Kernel { routine: 1 }).build(&mut ids).unwrap();
    kernel.set_context(ctx);
    assert!(kernel.user().is_none());
}

#[test]
fn syscall_works_on_the_saved_registers() {
    let mut ids = TaskIds::new();
    let mut task = user_task(&mut ids);
    let mut ctx = CpuContext::new();
    ctx.rax = SYS_WRITE;
    ctx.rsi = 0x60_0001;
    ctx.rdx = 3;
    ctx.rip = 0x40_0020;
    task.set_context(ctx);
    let effect = task.syscall().unwrap();
    assert_eq!(effect.output, Some(b"ata".to_vec()));
    assert_eq!(effect.next, Continuation::Resume);
    assert_eq!(task.user().unwrap().ctx.rax, 3);
    assert_eq!(task.user().unwrap().ctx.rip, 0x40_0022);
    let mut kernel = TaskOptions::new(Entry::Kernel { routine: 1 }).build(&mut ids).unwrap();
    assert!(kernel.syscall().is_none());
    assert_eq!(kernel.state(), TaskState::Runnable);
}
