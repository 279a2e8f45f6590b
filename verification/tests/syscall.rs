use rvvm::syscall_handler::{syscall_handler, SyscallArgs, SyscallEffect, SyscallTrace};
use rvvm::{Bus, Cpu, Generic, Memory, Op, OperationError, Sysno};

fn engine() -> Cpu<Memory> {
    Cpu::new(Memory::new(0..=0xffff))
}

#[test]
fn syscall_write_reports_the_bytes_and_succeeds() {
    let mut cpu = engine();
    cpu.mem.write_bytes(0x3000, b"hi").unwrap();
    cpu.set_generic(Generic::a0, 1);
    cpu.set_generic(Generic::a1, 0x3000);
    cpu.set_generic(Generic::a2, 2);
    cpu.set_generic(Generic::a7, 64);
    let trace = syscall_handler(&mut cpu).unwrap();
    assert_eq!(cpu.get_generic(Generic::a0), 0);
    assert_eq!(trace.effect, SyscallEffect::Write { data: b"hi".to_vec() });
    assert_eq!(trace.effect.describe(), Some(String::from("\"hi\"")));
    assert!(trace.effect.describe().unwrap().contains("hi"));
    assert!(!trace.effect.is_failure());
    assert_eq!(trace.args.no(), Some(Sysno::write));
    assert_eq!(
        trace.args.describe(),
        "write, a0: 0x1, a1: 0x3000, a2: 0x2, a3: 0x0, a4: 0x0, a5: 0x0, a6: 0x0"
    );
    assert!(!cpu.running);
}

#[test]
fn syscall_exit_clears_the_running_flag() {
    let mut cpu = engine();
    cpu.start();
    cpu.set_generic(Generic::a0, 7);
    cpu.set_generic(Generic::a7, 93);
    let trace = syscall_handler(&mut cpu).unwrap();
    assert!(!cpu.running);
    assert_eq!(trace.effect, SyscallEffect::Exit { status: 7 });
    assert_eq!(trace.effect.describe(), Some(String::from("exit(7)")));
    assert!(trace.effect.is_failure());
    assert_eq!(cpu.get_generic(Generic::a0), 7);
    assert_eq!(trace.args.no(), Some(Sysno::exit));
}

#[test]
fn syscall_exit_with_status_zero_is_no_failure() {
    let mut cpu = engine();
    cpu.start();
    cpu.set_generic(Generic::a1, 5);
    cpu.set_generic(Generic::a7, 93);
    let trace = syscall_handler(&mut cpu).unwrap();
    assert!(!cpu.running);
    assert_eq!(trace.effect, SyscallEffect::Exit { status: 0 });
    assert_eq!(trace.effect.describe(), Some(String::from("exit(0)")));
    assert!(!trace.effect.is_failure());
}

#[test]
fn other_syscalls_do_nothing() {
    let mut cpu = engine();
    cpu.start();
    cpu.set_pc(0x80);
    cpu.set_generic(Generic::a0, 11);
    cpu.set_generic(Generic::a1, 0x3000);
    cpu.set_generic(Generic::a7, 63);
    let trace = syscall_handler(&mut cpu).unwrap();
    assert_eq!(trace.effect, SyscallEffect::Ignored);
    assert_eq!(trace.effect.describe(), None);
    assert_eq!(trace.args.no(), Some(Sysno::read));
    assert!(cpu.running);
    assert_eq!(cpu.pc, 0x80);
    assert_eq!(cpu.get_generic(Generic::a0), 11);
}

#[test]
fn an_unknown_syscall_number_does_nothing() {
    let mut cpu = engine();
    cpu.start();
    cpu.set_generic(Generic::a0, 11);
    cpu.set_generic(Generic::a7, 100_000);
    let trace = syscall_handler(&mut cpu).unwrap();
    assert_eq!(trace.effect, SyscallEffect::Ignored);
    assert_eq!(trace.args.no(), None);
    assert!(trace.args.describe().starts_with("unknown, a0: 0xb, "));
    assert!(cpu.running);
    cpu.set_generic(Generic::a7, -1);
    let trace = syscall_handler(&mut cpu).unwrap();
    assert_eq!(trace.effect, SyscallEffect::Ignored);
    assert_eq!(trace.args.no(), None);
    assert_eq!(cpu.get_generic(Generic::a0), 11);
}

#[test]
fn syscall_write_outside_memory_is_a_load_fault() {
    let mut cpu = engine();
    cpu.set_generic(Generic::a0, 1);
    cpu.set_generic(Generic::a1, 0x10000);
    cpu.set_generic(Generic::a2, 2);
    cpu.set_generic(Generic::a7, 64);
    assert_eq!(
        syscall_handler(&mut cpu),
        Err(OperationError::LoadAddressFault(0x10000))
    );
    assert_eq!(cpu.get_generic(Generic::a0), 1);
    cpu.set_generic(Generic::a1, 0xfff0);
    cpu.set_generic(Generic::a2, 0x20);
    assert_eq!(
        syscall_handler(&mut cpu),
        Err(OperationError::LoadAddressFault(0x10010))
    );
    cpu.set_generic(Generic::a2, -1);
    assert_eq!(
        syscall_handler(&mut cpu),
        Err(OperationError::LoadAddressFault(0xffef))
    );
    assert_eq!(cpu.get_generic(Generic::a0), 1);
}

#[test]
fn syscall_write_decodes_what_is_no_utf8() {
    let mut cpu = engine();
    cpu.mem.write_bytes(0x3000, &[b'a', 0xff, b'\n']).unwrap();
    cpu.set_generic(Generic::a1, 0x3000);
    cpu.set_generic(Generic::a2, 3);
    cpu.set_generic(Generic::a7, 64);
    let trace = syscall_handler(&mut cpu).unwrap();
    assert_eq!(trace.effect, SyscallEffect::Write { data: vec![b'a', 0xff, b'\n'] });
    assert_eq!(trace.effect.describe(), Some(String::from("\"a\u{fffd}\\n\"")));
}

#[test]
fn ecall_dispatches_and_moves_on() {
    let mut cpu = engine();
    cpu.start();
    cpu.set_pc(0x100);
    cpu.set_generic(Generic::a0, 3);
    cpu.set_generic(Generic::a7, 93);
    let r = cpu.tick(Op::Ecall, 4, 0x73);
    let trace: SyscallTrace = r.unwrap().unwrap();
    assert_eq!(trace.effect, SyscallEffect::Exit { status: 3 });
    assert!(!cpu.running);
    assert_eq!(cpu.pc, 0x104);
}

#[test]
fn a_faulting_ecall_does_not_move_on() {
    let mut cpu = engine();
    cpu.set_pc(0x100);
    cpu.set_generic(Generic::a1, 0x20000);
    cpu.set_generic(Generic::a7, 64);
    assert_eq!(
        cpu.tick(Op::Ecall, 4, 0x73),
        Err(OperationError::LoadAddressFault(0x20000))
    );
    assert_eq!(cpu.pc, 0x100);
}

#[test]
fn syscall_args_read_the_argument_registers() {
    let mut cpu = engine();
    cpu.set_generic(Generic::a0, 10);
    cpu.set_generic(Generic::a1, 11);
    cpu.set_generic(Generic::a2, 12);
    cpu.set_generic(Generic::a3, 13);
    cpu.set_generic(Generic::a4, 14);
    cpu.set_generic(Generic::a5, 15);
    cpu.set_generic(Generic::a6, -1);
    cpu.set_generic(Generic::a7, 64);
    let args = SyscallArgs::from_register(&cpu);
    assert_eq!(args.no(), Some(Sysno::write));
    for n in 0..6 {
        assert_eq!(args.arg(n), 10 + n);
    }
    assert_eq!(args.arg(6), usize::MAX);
    assert!(args.describe().starts_with("write, a0: 0xa, a1: 0xb, a2: 0xc, a3: 0xd, a4: 0xe, a5: 0xf, a6: 0xff"));
}

#[test]
fn sysno_numbers_and_names() {
    assert_eq!(Sysno::new(64), Some(Sysno::write));
    assert_eq!(Sysno::new(93), Some(Sysno::exit));
    assert_eq!(Sysno::new(0), Some(Sysno::io_setup));
    assert_eq!(Sysno::new(461), Some(Sysno::lsm_list_modules));
    assert_eq!(Sysno::new(462), None);
    assert_eq!(Sysno::new(usize::MAX), None);
    assert_eq!(Sysno::write.id(), 64);
    assert_eq!(Sysno::exit.id(), 93);
    assert_eq!(Sysno::write.name(), "write");
    assert_eq!(Sysno::exit.name(), "exit");
    assert_eq!(Sysno::clock_gettime.name(), "clock_gettime");
    assert_eq!(Sysno::clock_gettime.id(), 113);
}

#[test]
fn sysno_new_inverts_id() {
    let mut known = 0;
    for id in 0usize..512 {
        if let Some(sysno) = Sysno::new(id) {
            assert_eq!(sysno.id() as usize, id);
            assert!(!sysno.name().is_empty());
            known += 1;
        }
    }
    assert_eq!(known, 339);
}

#[test]
fn sysno_is_ordered_by_number() {
    assert!(Sysno::io_setup < Sysno::write);
    assert!(Sysno::write < Sysno::exit);
    let mut last: Option<Sysno> = None;
    for id in 0usize..512 {
        if let Some(sysno) = Sysno::new(id) {
            if let Some(before) = last {
                assert!(before < sysno);
            }
            last = Some(sysno);
        }
    }
    assert_eq!(last, Some(Sysno::lsm_list_modules));
}
