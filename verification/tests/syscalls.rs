use kern_core::cpu::CpuContext;
use kern_core::syscall::{
    decode, dispatch, perform, Continuation, Effect, Syscall, RESULT_BAD_ADDRESS, SYSCALL_INSTRUCTION_LEN,
    SYS_EXIT, SYS_SHUTDOWN, SYS_WRITE,
};
use kern_core::vm::{AddressSpace, Perms};

const RX_USER: Perms = Perms { read: true, write: false, execute: true, user: true };
const RW_KERNEL: Perms = Perms { read: true, write: true, execute: false, user: false };

fn request(number: u64, a0: u64, a1: u64, a2: u64) -> CpuContext {
    let mut ctx = CpuContext::new();
    ctx.rax = number;
    ctx.rdi = a0;
    ctx.rsi = a1;
    ctx.rdx = a2;
    ctx.rip = 0x40_0000;
    ctx.rsp = 0x7fff_f000;
    ctx.rbx = 0xb;
    ctx
}

fn space_with_greeting() -> AddressSpace {
    let mut space = AddressSpace::new();
    let mut image = vec![0u8; 4096];
    image[0] = 0x0f;
    image[1] = 0x05;
    image[0x100..0x10d].copy_from_slice(b"Hello, world\n");
    assert_eq!(space.map(0x40_0000, image, RX_USER), Ok(()));
    assert_eq!(space.map(0x80_0000, vec![0x55; 64], RW_KERNEL), Ok(()));
    space
}

#[test]
fn syscall_numbers_are_the_documented_ones() {
    assert_eq!(SYS_WRITE, 1);
    assert_eq!(SYS_SHUTDOWN, 48);
    assert_eq!(SYS_EXIT, 60);
    assert_eq!(SYSCALL_INSTRUCTION_LEN, 2);
    assert_eq!(RESULT_BAD_ADDRESS as i64, -14);
}

#[test]
fn decode_reads_the_request_from_the_registers() {
    assert_eq!(
        decode(&request(1, 7, 0x1000, 13)),
        Some(Syscall::Write { fd: 7, buf: 0x1000, len: 13 })
    );
    assert_eq!(decode(&request(48, 1, 2, 3)), Some(Syscall::Shutdown));
    assert_eq!(decode(&request(60, 1, 2, 3)), Some(Syscall::Exit));
}

#[test]
fn decode_knows_no_other_number() {
    for number in [0u64, 2, 3, 47, 49, 59, 61, 231, 0x100, u64::MAX] {
        assert_eq!(decode(&request(number, 1, 2, 3)), None);
    }
}

#[test]
fn write_puts_out_the_buffer_and_returns_its_length() {
    let space = space_with_greeting();
    let mut ctx = request(SYS_WRITE, 1, 0x40_0100, 13);
    let before = ctx;
    let effect = dispatch(&mut ctx, &space);
    assert_eq!(
        effect,
        Effect { output: Some(b"Hello, world\n".to_vec()), next: Continuation::Resume }
    );
    assert_eq!(ctx.rax, 13);
    assert_eq!(ctx.rip, 0x40_0002);
    let mut expected = before;
    expected.rax = 13;
    expected.rip = 0x40_0002;
    assert_eq!(ctx, expected);
}

#[test]
fn write_ignores_its_first_argument() {
    let space = space_with_greeting();
    for fd in [0u64, 1, 2, 99, u64::MAX] {
        let mut ctx = request(SYS_WRITE, fd, 0x40_0100, 5);
        let effect = dispatch(&mut ctx, &space);
        assert_eq!(effect.output, Some(b"Hello".to_vec()));
        assert_eq!(effect.next, Continuation::Resume);
        assert_eq!(ctx.rax, 5);
        assert_eq!(ctx.rdi, fd);
    }
}

#[test]
fn write_of_nothing_puts_out_nothing_and_returns_zero() {
    let space = space_with_greeting();
    let mut ctx = request(SYS_WRITE, 1, 0x40_0100, 0);
    let effect = dispatch(&mut ctx, &space);
    assert_eq!(effect, Effect { output: Some(vec![]), next: Continuation::Resume });
    assert_eq!(ctx.rax, 0);
    let mut unmapped = request(SYS_WRITE, 1, 0xdead_0000, 0);
    let effect = dispatch(&mut unmapped, &space);
    assert_eq!(effect, Effect { output: Some(vec![]), next: Continuation::Resume });
    assert_eq!(unmapped.rax, 0);
}

#[test]
fn write_from_unmapped_memory_fails_and_the_program_goes_on() {
    let space = space_with_greeting();
    let cases = [
        (0x10_0000u64, 13u64),
        (0x40_0ff8, 16),
        (0x3f_ffff, 2),
        (0x40_0000, 4097),
        (0x40_0100, u64::MAX),
        (u64::MAX, 2),
    ];
    for (buf, len) in cases {
        let mut ctx = request(SYS_WRITE, 1, buf, len);
        let before = ctx;
        let effect = dispatch(&mut ctx, &space);
        assert_eq!(effect, Effect { output: None, next: Continuation::Resume });
        assert_eq!(ctx.rax, RESULT_BAD_ADDRESS);
        assert_eq!(ctx.rip, before.rip + 2);
        assert_eq!(ctx.rsi, buf);
        assert_eq!(ctx.rdx, len);
    }
}

#[test]
fn write_from_kernel_memory_fails() {
    let space = space_with_greeting();
    let mut ctx = request(SYS_WRITE, 1, 0x80_0000, 8);
    let effect = dispatch(&mut ctx, &space);
    assert_eq!(effect, Effect { output: None, next: Continuation::Resume });
    assert_eq!(ctx.rax, RESULT_BAD_ADDRESS);
    assert_eq!(ctx.rax as i64, -14);
}

#[test]
fn shutdown_halts_with_success_and_leaves_the_registers() {
    let space = space_with_greeting();
    let mut ctx = request(SYS_SHUTDOWN, 1, 2, 3);
    let before = ctx;
    let effect = dispatch(&mut ctx, &space);
    assert_eq!(effect, Effect { output: None, next: Continuation::Halt { success: true } });
    assert_eq!(ctx, before);
}

#[test]
fn exit_ends_the_task_and_leaves_the_registers() {
    let space = space_with_greeting();
    let mut ctx = request(SYS_EXIT, 0, 0, 0);
    let before = ctx;
    let effect = dispatch(&mut ctx, &space);
    assert_eq!(effect, Effect { output: None, next: Continuation::ExitTask });
    assert_eq!(ctx, before);
}

#[test]
fn unknown_syscall_halts_with_failure() {
    let space = space_with_greeting();
    for number in [0u64, 2, 39, 59, 61, 1000, u64::MAX] {
        let mut ctx = request(number, 1, 0x40_0100, 13);
        let before = ctx;
        let effect = dispatch(&mut ctx, &space);
        assert_eq!(effect, Effect { output: None, next: Continuation::Halt { success: false } });
        assert_eq!(ctx, before);
    }
}

#[test]
fn instruction_pointer_wraps_at_the_top_of_the_address_space() {
    let space = space_with_greeting();
    let mut ctx = request(SYS_WRITE, 1, 0x40_0100, 1);
    ctx.rip = u64::MAX;
    dispatch(&mut ctx, &space);
    assert_eq!(ctx.rip, 1);
    let mut ctx = request(SYS_WRITE, 1, 0x40_0100, 1);
    ctx.rip = u64::MAX - 1;
    dispatch(&mut ctx, &space);
    assert_eq!(ctx.rip, 0);
}

#[test]
fn perform_does_what_dispatch_does_for_a_decoded_request() {
    let space = space_with_greeting();
    let mut a = request(SYS_WRITE, 1, 0x40_0107, 5);
    let mut b = a;
    let call = decode(&a).unwrap();
    let by_perform = perform(call, &mut a, &space);
    let by_dispatch = dispatch(&mut b, &space);
    assert_eq!(by_perform, by_dispatch);
    assert_eq!(by_perform.output, Some(b"world".to_vec()));
    assert_eq!(a, b);
    let mut c = request(7, 0, 0, 0);
    let before = c;
    let effect = perform(Syscall::Exit, &mut c, &space);
    assert_eq!(effect.next, Continuation::ExitTask);
    assert_eq!(c, before);
}
