//! The operations that the engine executes.

use vstd::prelude::*;
use crate::bus::{Bus, BusOperation};
use crate::cpu::{Cpu, CpuView};
use crate::error::OperationError;
use crate::register::Generic;
use crate::word::{unsigned_of, to_unsigned, to_signed, signed_of};
use crate::syscall_handler::{
    SyscallTrace, SyscallTraceView, syscall_handler, syscall_next, syscall_result,
};

verus! {

/// A decoded instruction: the vocabulary that the engine dispatches on.
/// Immediates are the sign-extended values of the instruction word.
#[derive(Debug, Clone, Copy, PartialEq, Eq, Structural)]
pub enum Op {
    /// Bits that decode to no instruction.
    Illegal,
    /// `rd = rs1 + rs2`
    Add { rd: Generic, rs1: Generic, rs2: Generic },
    /// `rd = rs1 - rs2`
    Sub { rd: Generic, rs1: Generic, rs2: Generic },
    /// `rd = rs1 << imm`
    Slli { rd: Generic, rs1: Generic, imm: i32 },
    /// `rd = rs1 + imm`
    Addi { rd: Generic, rs1: Generic, imm: i32 },
    /// `rd = pc + imm`
    Auipc { rd: Generic, imm: i32 },
    /// `rd =` the byte at `rs1 + imm`, zero-extended
    Lb { rd: Generic, rs1: Generic, imm: i32 },
    /// `rd =` the machine word at `rs1 + imm`, read as a signed word
    Ld { rd: Generic, rs1: Generic, imm: i32 },
    /// `rd = pc + 4`, then `pc = pc + imm`
    Jal { rd: Generic, imm: i32 },
    /// `rd = pc + 4` and `pc = rs1 + imm`, with `rs1` as it was before the
    /// instruction
    Jalr { rd: Generic, rs1: Generic, imm: i32 },
    /// `pc = pc + imm` where `rs1` and `rs2` differ
    Bne { rs1: Generic, rs2: Generic, imm: i32 },
    /// A trap into the system-call layer.
    Ecall,
}

/// The engine with its program counter moved on by `by`, round the word.
pub open spec fn advance(cpu: CpuView, by: isize) -> CpuView {
    CpuView { pc: cpu.pc.wrapping_add(by), ..cpu }
}

/// The address `base + imm` of a load, as the bus sees it.
pub open spec fn effective_address(cpu: CpuView, base: Generic, imm: i32) -> usize {
    unsigned_of(cpu.get_generic(base).wrapping_add(imm as isize))
}

/// The engine after executing `op`, an instruction of `len` bytes.
///
/// All register arithmetic is modulo the word size, and a shift takes its
/// amount modulo the number of bits of a word. An operation that faults
/// leaves the engine as it was. Jumps and the branch set the program counter
/// themselves; after every other operation it moves on by `len`. Every
/// operation reads its sources before it writes its destination: a jump
/// through the register that it links to goes where the register pointed.
pub open spec fn execute_next(cpu: CpuView, op: Op, len: isize) -> CpuView {
    match op {
        Op::Illegal => cpu,
        Op::Add { rd, rs1, rs2 } => advance(
            cpu.set_generic(rd, cpu.get_generic(rs1).wrapping_add(cpu.get_generic(rs2))),
            len,
        ),
        Op::Sub { rd, rs1, rs2 } => advance(
            cpu.set_generic(rd, cpu.get_generic(rs1).wrapping_sub(cpu.get_generic(rs2))),
            len,
        ),
        Op::Slli { rd, rs1, imm } => advance(
            cpu.set_generic(rd, cpu.get_generic(rs1).wrapping_shl(imm as u32)),
            len,
        ),
        Op::Addi { rd, rs1, imm } => advance(
            cpu.set_generic(rd, cpu.get_generic(rs1).wrapping_add(imm as isize)),
            len,
        ),
        Op::Auipc { rd, imm } => advance(
            cpu.set_generic(rd, cpu.pc.wrapping_add(imm as isize)),
            len,
        ),
        Op::Lb { rd, rs1, imm } => match cpu.mem.load::<u8>(effective_address(cpu, rs1, imm)) {
            Ok(byte) => advance(cpu.set_generic(rd, byte as isize), len),
            Err(_) => cpu,
        },
        Op::Ld { rd, rs1, imm } => match cpu.mem.load::<usize>(
            effective_address(cpu, rs1, imm),
        ) {
            Ok(word) => advance(cpu.set_generic(rd, signed_of(word)), len),
            Err(_) => cpu,
        },
        Op::Jal { rd, imm } => advance(cpu.set_generic(rd, cpu.pc.wrapping_add(4)), imm as isize),
        Op::Jalr { rd, rs1, imm } => CpuView {
            pc: cpu.get_generic(rs1).wrapping_add(imm as isize),
            ..cpu.set_generic(rd, cpu.pc.wrapping_add(4))
        },
        Op::Bne { rs1, rs2, imm } => if cpu.get_generic(rs1) != cpu.get_generic(rs2) {
            advance(cpu, imm as isize)
        } else {
            advance(cpu, len)
        },
        Op::Ecall => if syscall_result(cpu) is Ok {
            advance(syscall_next(cpu), len)
        } else {
            cpu
        },
    }
}

/// What executing `op` returns: the fault of a load or of the system-call
/// layer, or else the trace of the system call, if `op` was a trap.
pub open spec fn execute_result(cpu: CpuView, op: Op) -> Result<
    Option<SyscallTraceView>,
    OperationError,
> {
    match op {
        Op::Lb { rd, rs1, imm } => match cpu.mem.load::<u8>(effective_address(cpu, rs1, imm)) {
            Ok(_) => Ok(None),
            Err(fault) => Err(fault),
        },
        Op::Ld { rd, rs1, imm } => match cpu.mem.load::<usize>(
            effective_address(cpu, rs1, imm),
        ) {
            Ok(_) => Ok(None),
            Err(fault) => Err(fault),
        },
        Op::Ecall => match syscall_result(cpu) {
            Ok(trace) => Ok(Some(trace)),
            Err(fault) => Err(fault),
        },
        _ => Ok(None),
    }
}

/// Whether `r` is the exec form of the result `model`.
pub open spec fn result_matches(
    r: Result<Option<SyscallTrace>, OperationError>,
    model: Result<Option<SyscallTraceView>, OperationError>,
) -> bool {
    match r {
        Ok(Some(trace)) => model == Ok::<Option<SyscallTraceView>, OperationError>(Some(trace@)),
        Ok(None) => model == Ok::<Option<SyscallTraceView>, OperationError>(None),
        Err(fault) => model == Err::<Option<SyscallTraceView>, OperationError>(fault),
    }
}

/// Executes `op`, an instruction of `len` bytes, on `cpu`.
pub fn instruction_operation<B: Bus>(op: Op, cpu: &mut Cpu<B>, len: isize) -> (r: Result<
    Option<SyscallTrace>,
    OperationError,
>)
    requires
        !(op is Illegal),
    ensures
        final(cpu)@ == execute_next(old(cpu)@, op, len),
        result_matches(r, execute_result(old(cpu)@, op)),
{
    let mut trace: Option<SyscallTrace> = None;
    match op {
        Op::Illegal => {},
        Op::Add { rd, rs1, rs2 } => {
            cpu.set_generic(rd, cpu.get_generic(rs1).wrapping_add(cpu.get_generic(rs2)));
        },
        Op::Sub { rd, rs1, rs2 } => {
            cpu.set_generic(rd, cpu.get_generic(rs1).wrapping_sub(cpu.get_generic(rs2)));
        },
        Op::Slli { rd, rs1, imm } => {
            cpu.set_generic(
                rd,
                cpu.get_generic(rs1).wrapping_shl(#[verifier::truncate] (imm as u32)),
            );
        },
        Op::Addi { rd, rs1, imm } => {
            let src = cpu.get_generic(rs1);
            cpu.set_generic(rd, src.wrapping_add(imm as isize));
        },
        Op::Auipc { rd, imm } => {
            cpu.set_generic(rd, cpu.pc.wrapping_add(imm as isize));
        },
        Op::Lb { rd, rs1, imm } => {
            let src = cpu.get_generic(rs1).wrapping_add(imm as isize);
            let data: u8 = match cpu.mem.load(to_unsigned(src)) {
                Ok(data) => data,
                Err(fault) => {
                    return Err(fault);
                },
            };
            cpu.set_generic(rd, data as isize);
        },
        Op::Ld { rd, rs1, imm } => {
            let src = cpu.get_generic(rs1).wrapping_add(imm as isize);
            let word: usize = match cpu.mem.load(to_unsigned(src)) {
                Ok(word) => word,
                Err(fault) => {
                    return Err(fault);
                },
            };
            cpu.set_generic(rd, to_signed(word));
        },
        Op::Jal { rd, imm } => {
            cpu.set_generic(rd, cpu.pc.wrapping_add(4));
            cpu.pc = cpu.pc.wrapping_add(imm as isize);
            return Ok(None);
        },
        Op::Jalr { rd, rs1, imm } => {
            let target = cpu.get_generic(rs1).wrapping_add(imm as isize);
            cpu.set_generic(rd, cpu.pc.wrapping_add(4));
            cpu.pc = target;
            return Ok(None);
        },
        Op::Bne { rs1, rs2, imm } => {
            if cpu.get_generic(rs1) != cpu.get_generic(rs2) {
                cpu.pc = cpu.pc.wrapping_add(imm as isize);
            } else {
                cpu.pc = cpu.pc.wrapping_add(len);
            }
            return Ok(None);
        },
        Op::Ecall => {
            match syscall_handler(cpu) {
                Ok(done) => {
                    trace = Some(done);
                },
                Err(fault) => {
                    return Err(fault);
                },
            }
        },
    }
    cpu.pc = cpu.pc.wrapping_add(len);
    Ok(trace)
}

} // verus!
