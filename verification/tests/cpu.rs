use rvvm::operation::instruction_operation;
use rvvm::{Bus, BusOperation, Cpu, Generic, Memory, Op, OperationError};

fn engine(image: &[u8]) -> Cpu<Memory> {
    let mut mem = Memory::new(0..=0xffff);
    mem.init_from(image).unwrap();
    Cpu::new(mem)
}

#[test]
fn a_new_engine_is_idle() {
    let cpu = engine(&[]);
    assert_eq!(cpu.pc, 0);
    assert!(!cpu.running);
    assert!(!cpu.is_debug());
    for bits in 0u8..32 {
        assert_eq!(cpu.get_generic(Generic::from_value(bits).unwrap()), 0);
    }
}

#[test]
fn set_pc_and_set_debug() {
    let mut cpu = engine(&[]);
    cpu.set_pc(0x1234);
    cpu.set_debug(true);
    assert_eq!(cpu.pc, 0x1234);
    assert!(cpu.is_debug());
    cpu.set_debug(false);
    assert!(!cpu.is_debug());
}

#[test]
fn start_sets_the_running_flag() {
    let mut cpu = engine(&[]);
    assert!(!cpu.running);
    cpu.start();
    assert!(cpu.running);
}

#[test]
fn settle_goes_on_after_a_turn_without_fault() {
    let mut cpu = engine(&[]);
    cpu.start();
    cpu.set_pc(0x10);
    assert!(cpu.settle(&Ok(None)));
    assert!(cpu.running);
    assert_eq!(cpu.pc, 0x10);
}

#[test]
fn settle_halts_on_a_fault() {
    let mut cpu = engine(&[]);
    cpu.start();
    cpu.set_pc(0x10);
    cpu.set_generic(Generic::a0, 4);
    assert!(!cpu.settle(&Err(OperationError::LoadAddressFault(0x10000))));
    assert!(!cpu.running);
    assert_eq!(cpu.pc, 0x10);
    assert_eq!(cpu.get_generic(Generic::a0), 4);
    assert!(!cpu.settle(&Ok(None)));
    assert!(!cpu.running);
}

#[test]
fn settle_stops_after_the_guest_left() {
    let mut cpu = engine(&[]);
    cpu.start();
    cpu.set_generic(Generic::a7, 93);
    let outcome = cpu.tick(Op::Ecall, 4, 0x73);
    assert!(outcome.is_ok());
    assert!(!cpu.settle(&outcome));
    assert!(!cpu.running);
    assert_eq!(cpu.pc, 4);
}

#[test]
fn settle_does_not_start_an_idle_engine() {
    let mut cpu = engine(&[]);
    assert!(!cpu.settle(&Ok(None)));
    assert!(!cpu.running);
}

#[test]
fn fetch_of_a_four_byte_instruction() {
    // addi a0, zero, 1
    let cpu = engine(&[0x13, 0x05, 0x10, 0x00]);
    assert_eq!(cpu.fetch_instruction(), Ok((4, 0x0010_0513)));
}

#[test]
fn fetch_of_a_two_byte_instruction() {
    // c.nop, then bytes that are not looked at
    let mut cpu = engine(&[0xff, 0xff, 0x01, 0x00, 0xff, 0xff]);
    cpu.set_pc(2);
    assert_eq!(cpu.fetch_instruction(), Ok((2, 0x0001)));
}

#[test]
fn fetch_outside_memory_is_a_load_fault() {
    let mut cpu = engine(&[]);
    cpu.set_pc(0x10000);
    assert_eq!(
        cpu.fetch_instruction(),
        Err(OperationError::LoadAddressFault(0x10000))
    );
    cpu.set_pc(-2);
    assert_eq!(
        cpu.fetch_instruction(),
        Err(OperationError::LoadAddressFault(usize::MAX - 1))
    );
}

#[test]
fn fetch_at_an_odd_address_is_unaligned() {
    let mut cpu = engine(&[0x13, 0x05, 0x10, 0x00]);
    cpu.set_pc(1);
    assert_eq!(cpu.fetch_instruction(), Err(OperationError::UnalignedAccess(1)));
}

#[test]
fn fetch_whose_high_half_is_outside_memory_is_a_load_fault() {
    let mut mem = Memory::new(0..=0x11);
    mem.write_bytes(0x10, &[0x13]).unwrap();
    let mut cpu = Cpu::new(mem);
    cpu.set_pc(0x10);
    assert_eq!(
        cpu.fetch_instruction(),
        Err(OperationError::LoadAddressFault(0x12))
    );
}

#[test]
fn fetch_across_a_page_boundary_is_illegal() {
    // One page of memory: a read behind it would be a load fault.
    let mut mem = Memory::new(0..=0xfff);
    mem.store(4094, 0x0013u16).unwrap();
    let mut cpu = Cpu::new(mem);
    cpu.set_pc(4094);
    assert_eq!(
        cpu.fetch_instruction(),
        Err(OperationError::IllegalInstruction(0x0013, 4094))
    );
    let mut mem = Memory::new(0..=0x2fff);
    mem.write_bytes(0x1ffe, &[0x6f, 0x00, 0x13, 0x05]).unwrap();
    let mut cpu = Cpu::new(mem);
    cpu.set_pc(0x1ffe);
    assert_eq!(
        cpu.fetch_instruction(),
        Err(OperationError::IllegalInstruction(0x006f, 0x1ffe))
    );
}

#[test]
fn a_two_byte_instruction_at_the_end_of_a_page_is_fetched() {
    let mut mem = Memory::new(0..=0x1fff);
    mem.write_bytes(4094, &[0x01, 0x00, 0xff, 0xff]).unwrap();
    let mut cpu = Cpu::new(mem);
    cpu.set_pc(4094);
    assert_eq!(cpu.fetch_instruction(), Ok((2, 0x0001)));
}

#[test]
fn tick_on_an_illegal_instruction_is_a_fault() {
    let mut cpu = engine(&[]);
    cpu.set_pc(0x40);
    cpu.set_generic(Generic::a0, 3);
    assert_eq!(
        cpu.tick(Op::Illegal, 4, 0xffff_ffff),
        Err(OperationError::IllegalInstruction(0xffff_ffff, 0x40))
    );
    assert_eq!(cpu.pc, 0x40);
    assert_eq!(cpu.get_generic(Generic::a0), 3);
}

#[test]
fn branch_not_taken_moves_on_by_the_instruction_length() {
    let mut cpu = engine(&[]);
    cpu.set_generic(Generic::ra, 5);
    cpu.set_generic(Generic::sp, 5);
    cpu.set_pc(0x1000);
    let op = Op::Bne { rs1: Generic::ra, rs2: Generic::sp, imm: 0x10 };
    assert_eq!(cpu.tick(op, 4, 0), Ok(None));
    assert_eq!(cpu.pc, 0x1004);
    cpu.set_pc(0x1000);
    assert_eq!(cpu.tick(op, 2, 0), Ok(None));
    assert_eq!(cpu.pc, 0x1002);
}

#[test]
fn branch_taken_adds_the_immediate() {
    let mut cpu = engine(&[]);
    cpu.set_generic(Generic::ra, 5);
    cpu.set_generic(Generic::sp, 6);
    cpu.set_pc(0x1000);
    assert_eq!(
        cpu.tick(Op::Bne { rs1: Generic::ra, rs2: Generic::sp, imm: 0x10 }, 4, 0),
        Ok(None)
    );
    assert_eq!(cpu.pc, 0x1010);
    assert_eq!(
        cpu.tick(Op::Bne { rs1: Generic::ra, rs2: Generic::sp, imm: -0x20 }, 4, 0),
        Ok(None)
    );
    assert_eq!(cpu.pc, 0xff0);
}

#[test]
fn jump_and_link_sets_the_return_address_and_the_target() {
    let mut cpu = engine(&[]);
    cpu.set_pc(0x2000);
    assert_eq!(cpu.tick(Op::Jal { rd: Generic::ra, imm: 0x100 }, 4, 0), Ok(None));
    assert_eq!(cpu.get_generic(Generic::ra), 0x2004);
    assert_eq!(cpu.pc, 0x2100);
}

#[test]
fn jump_and_link_register() {
    let mut cpu = engine(&[]);
    cpu.set_pc(0x2000);
    cpu.set_generic(Generic::t0, 0x3000);
    assert_eq!(
        cpu.tick(Op::Jalr { rd: Generic::ra, rs1: Generic::t0, imm: -8 }, 4, 0),
        Ok(None)
    );
    assert_eq!(cpu.get_generic(Generic::ra), 0x2004);
    assert_eq!(cpu.pc, 0x2ff8);
}

#[test]
fn jump_and_link_register_reads_the_source_before_it_links() {
    let mut cpu = engine(&[]);
    cpu.set_generic(Generic::ra, 0x3000);
    cpu.set_pc(0x2000);
    let op = Op::Jalr { rd: Generic::ra, rs1: Generic::ra, imm: 0 };
    assert_eq!(instruction_operation(op, &mut cpu, 4), Ok(None));
    assert_eq!(cpu.pc, 0x3000);
    assert_eq!(cpu.get_generic(Generic::ra), 0x2004);
    cpu.set_generic(Generic::ra, 0x3000);
    cpu.set_pc(0x2000);
    assert_eq!(
        cpu.tick(Op::Jalr { rd: Generic::ra, rs1: Generic::ra, imm: 0x10 }, 4, 0),
        Ok(None)
    );
    assert_eq!(cpu.pc, 0x3010);
    assert_eq!(cpu.get_generic(Generic::ra), 0x2004);
}

#[test]
fn jump_and_link_register_through_the_zero_register() {
    let mut cpu = engine(&[]);
    cpu.set_pc(0x2000);
    assert_eq!(
        cpu.tick(Op::Jalr { rd: Generic::zero, rs1: Generic::zero, imm: 0x40 }, 4, 0),
        Ok(None)
    );
    assert_eq!(cpu.pc, 0x40);
    assert_eq!(cpu.get_generic(Generic::zero), 0);
}

#[test]
fn arithmetic_operations() {
    let mut cpu = engine(&[]);
    cpu.set_generic(Generic::a1, 40);
    cpu.set_generic(Generic::a2, 2);
    let add = Op::Add { rd: Generic::a0, rs1: Generic::a1, rs2: Generic::a2 };
    assert_eq!(cpu.tick(add, 4, 0), Ok(None));
    assert_eq!(cpu.get_generic(Generic::a0), 42);
    assert_eq!(cpu.pc, 4);
    let sub = Op::Sub { rd: Generic::a0, rs1: Generic::a2, rs2: Generic::a1 };
    assert_eq!(cpu.tick(sub, 4, 0), Ok(None));
    assert_eq!(cpu.get_generic(Generic::a0), -38);
    assert_eq!(cpu.pc, 8);
    let slli = Op::Slli { rd: Generic::a3, rs1: Generic::a1, imm: 4 };
    assert_eq!(cpu.tick(slli, 2, 0), Ok(None));
    assert_eq!(cpu.get_generic(Generic::a3), 640);
    assert_eq!(cpu.pc, 10);
    let addi = Op::Addi { rd: Generic::a4, rs1: Generic::a3, imm: -641 };
    assert_eq!(cpu.tick(addi, 4, 0), Ok(None));
    assert_eq!(cpu.get_generic(Generic::a4), -1);
    assert_eq!(cpu.pc, 14);
}

#[test]
fn arithmetic_wraps_round_the_word() {
    let mut cpu = engine(&[]);
    cpu.set_generic(Generic::a1, isize::MAX);
    cpu.set_generic(Generic::a2, 1);
    let add = Op::Add { rd: Generic::a0, rs1: Generic::a1, rs2: Generic::a2 };
    assert_eq!(cpu.tick(add, 4, 0), Ok(None));
    assert_eq!(cpu.get_generic(Generic::a0), isize::MIN);
    cpu.set_generic(Generic::a1, isize::MIN);
    let sub = Op::Sub { rd: Generic::a0, rs1: Generic::a1, rs2: Generic::a2 };
    assert_eq!(cpu.tick(sub, 4, 0), Ok(None));
    assert_eq!(cpu.get_generic(Generic::a0), isize::MAX);
    let addi = Op::Addi { rd: Generic::a0, rs1: Generic::a0, imm: 1 };
    assert_eq!(cpu.tick(addi, 4, 0), Ok(None));
    assert_eq!(cpu.get_generic(Generic::a0), isize::MIN);
    cpu.set_generic(Generic::a3, 1);
    let slli = Op::Slli { rd: Generic::a3, rs1: Generic::a3, imm: (isize::BITS - 1) as i32 };
    assert_eq!(cpu.tick(slli, 4, 0), Ok(None));
    assert_eq!(cpu.get_generic(Generic::a3), isize::MIN);
    cpu.set_pc(isize::MAX - 1);
    assert_eq!(cpu.tick(addi, 4, 0), Ok(None));
    assert_eq!(cpu.pc, isize::MIN + 2);
}

#[test]
fn a_write_to_the_zero_register_is_dropped_by_every_operation() {
    let mut cpu = engine(&[]);
    cpu.set_generic(Generic::a1, 40);
    let addi = Op::Addi { rd: Generic::zero, rs1: Generic::a1, imm: 2 };
    assert_eq!(cpu.tick(addi, 4, 0), Ok(None));
    assert_eq!(cpu.get_generic(Generic::zero), 0);
    assert_eq!(cpu.tick(Op::Jal { rd: Generic::zero, imm: 8 }, 4, 0), Ok(None));
    assert_eq!(cpu.get_generic(Generic::zero), 0);
    assert_eq!(cpu.pc, 12);
}

#[test]
fn add_upper_immediate_to_pc() {
    let mut cpu = engine(&[]);
    cpu.set_pc(0x1000);
    assert_eq!(
        cpu.tick(Op::Auipc { rd: Generic::gp, imm: 0x2000 }, 4, 0),
        Ok(None)
    );
    assert_eq!(cpu.get_generic(Generic::gp), 0x3000);
    assert_eq!(cpu.pc, 0x1004);
    assert_eq!(
        cpu.tick(Op::Auipc { rd: Generic::gp, imm: -0x1000 }, 4, 0),
        Ok(None)
    );
    assert_eq!(cpu.get_generic(Generic::gp), 4);
}

#[test]
fn load_byte_zero_extends() {
    let mut cpu = engine(&[0x00, 0x00, 0x00, 0xfe]);
    cpu.set_generic(Generic::a1, 1);
    assert_eq!(
        cpu.tick(Op::Lb { rd: Generic::a0, rs1: Generic::a1, imm: 2 }, 4, 0),
        Ok(None)
    );
    assert_eq!(cpu.get_generic(Generic::a0), 0xfe);
    assert_eq!(cpu.pc, 4);
}

#[test]
fn load_word_reads_a_machine_word() {
    let mut cpu = engine(&[]);
    cpu.mem.store(0x100, 0x1234_5678usize).unwrap();
    cpu.set_generic(Generic::a1, 0x108);
    assert_eq!(
        cpu.tick(Op::Ld { rd: Generic::a0, rs1: Generic::a1, imm: -8 }, 4, 0),
        Ok(None)
    );
    assert_eq!(cpu.get_generic(Generic::a0), 0x1234_5678);
    cpu.mem.store(0x100, usize::MAX).unwrap();
    assert_eq!(
        cpu.tick(Op::Ld { rd: Generic::a0, rs1: Generic::a1, imm: -8 }, 4, 0),
        Ok(None)
    );
    assert_eq!(cpu.get_generic(Generic::a0), -1);
}

#[test]
fn a_faulting_load_leaves_the_engine_as_it_was() {
    let mut cpu = engine(&[]);
    cpu.set_pc(0x20);
    cpu.set_generic(Generic::a0, 7);
    cpu.set_generic(Generic::a1, 0x10000);
    assert_eq!(
        cpu.tick(Op::Lb { rd: Generic::a0, rs1: Generic::a1, imm: 0 }, 4, 0),
        Err(OperationError::LoadAddressFault(0x10000))
    );
    assert_eq!(cpu.pc, 0x20);
    assert_eq!(cpu.get_generic(Generic::a0), 7);
    cpu.set_generic(Generic::a1, 0x101);
    assert_eq!(
        cpu.tick(Op::Ld { rd: Generic::a0, rs1: Generic::a1, imm: 0 }, 4, 0),
        Err(OperationError::UnalignedAccess(0x101))
    );
    assert_eq!(cpu.pc, 0x20);
    assert_eq!(cpu.get_generic(Generic::a0), 7);
}

#[test]
fn instruction_operation_executes_a_decoded_operation() {
    let mut cpu = engine(&[]);
    cpu.set_pc(0x10);
    let op = Op::Addi { rd: Generic::a0, rs1: Generic::zero, imm: 9 };
    assert_eq!(instruction_operation(op, &mut cpu, 2), Ok(None));
    assert_eq!(cpu.get_generic(Generic::a0), 9);
    assert_eq!(cpu.pc, 0x12);
}

#[test]
fn fetch_then_tick_runs_a_small_program() {
    // addi a0, zero, 1 ; c.nop
    let mut cpu = engine(&[0x13, 0x05, 0x10, 0x00, 0x01, 0x00]);
    let (len, bits) = cpu.fetch_instruction().unwrap();
    assert_eq!((len, bits), (4, 0x0010_0513));
    let op = Op::Addi { rd: Generic::a0, rs1: Generic::zero, imm: 1 };
    assert_eq!(cpu.tick(op, len, bits), Ok(None));
    assert_eq!(cpu.get_generic(Generic::a0), 1);
    assert_eq!(cpu.pc, 4);
    assert_eq!(cpu.fetch_instruction(), Ok((2, 1)));
    let word: Result<u16, OperationError> = cpu.mem.load(4);
    assert_eq!(word, Ok(1));
    assert_eq!(cpu.mem.address_range(), &(0..=0xffff));
}
