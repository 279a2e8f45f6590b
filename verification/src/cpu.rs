//! The execution engine: registers, a bus, a program counter, and the
//! instruction fetch.

use vstd::prelude::*;
use crate::bus::{Bus, BusOperation, BusView};
use crate::error::OperationError;
use crate::operation::{Op, execute_next, execute_result, instruction_operation, result_matches};
use crate::register::{Fcsr, Generic, Register};
use crate::word::{unsigned_of, to_unsigned};
use crate::syscall_handler::{
    SyscallTrace, SyscallTraceView, lemma_syscall_keeps_shape, syscall_args,
};

verus! {

/// The general-purpose register file.
pub type Gsr = Register<isize, 32>;

/// The floating-point register file.
pub type Fsr = Register<isize, 32>;

/// The engine. It owns its bus.
pub struct Cpu<B: Bus> {
    pub(crate) generic: Gsr,
    pub(crate) float: Fsr,
    pub mem: B,
    pub pc: isize,
    pub(crate) is_debug: bool,
    pub running: bool,
}

/// The model of the engine.
pub struct CpuView {
    /// The stored general-purpose registers, by register number.
    pub generic: Seq<isize>,
    /// The floating-point registers, by register number.
    pub float: Seq<isize>,
    pub mem: BusView,
    pub pc: isize,
    pub is_debug: bool,
    pub running: bool,
}

impl CpuView {
    /// Both register files have 32 registers.
    pub open spec fn wf(self) -> bool {
        self.generic.len() == 32 && self.float.len() == 32
    }

    /// What reading general-purpose register `name` gives: `zero` reads as
    /// 0 whatever is stored.
    pub open spec fn get_generic(self, name: Generic) -> isize {
        if name == Generic::zero {
            0
        } else {
            self.generic[name.index() as int]
        }
    }

    /// The engine after writing `value` to general-purpose register `name`:
    /// a write to `zero` changes nothing.
    pub open spec fn set_generic(self, name: Generic, value: isize) -> CpuView {
        if name == Generic::zero {
            self
        } else {
            CpuView { generic: self.generic.update(name.index() as int, value), ..self }
        }
    }

    /// What reading floating-point register `name` gives.
    pub open spec fn get_float(self, name: Fcsr) -> isize {
        self.float[name.index() as int]
    }

    /// The engine after writing `value` to floating-point register `name`.
    pub open spec fn set_float(self, name: Fcsr, value: isize) -> CpuView {
        CpuView { float: self.float.update(name.index() as int, value), ..self }
    }

    /// What an instruction fetch at the program counter gives: the length of
    /// the instruction in bytes and its raw bits.
    ///
    /// The low halfword is loaded first. Where its two low bits are both
    /// set the instruction has four bytes: the high halfword is loaded from
    /// `pc + 2`, unless the low one is the last halfword of its 4096-byte
    /// page, which is an illegal instruction. Otherwise the instruction is
    /// the low halfword alone. The program counter addresses the bus by its
    /// bits: a negative one lies in the upper half of the address space.
    pub open spec fn fetch(self) -> Result<(u64, u32), OperationError> {
        match self.mem.load::<u16>(unsigned_of(self.pc)) {
            Err(fault) => Err(fault),
            Ok(low) => if low % 4 != 3 {
                Ok((2, low as u32))
            } else if self.pc % 4096 == 4094 {
                Err(OperationError::IllegalInstruction(low as u32, unsigned_of(self.pc)))
            } else {
                match self.mem.load::<u16>(unsigned_of(self.pc.wrapping_add(2))) {
                    Err(fault) => Err(fault),
                    Ok(high) => Ok((4, (high * 0x1_0000 + low) as u32)),
                }
            },
        }
    }
}

impl CpuView {
    /// The engine after one tick on the decoded instruction `op` of `len`
    /// bytes: unchanged where `op` is illegal, else as the operation leaves
    /// it.
    pub open spec fn tick_next(self, op: Op, len: u64) -> CpuView {
        if op is Illegal {
            self
        } else {
            execute_next(self, op, len as isize)
        }
    }

    /// What one tick on the decoded instruction `op` with raw bits `bits`
    /// returns: an illegal instruction is a fault that carries the bits and
    /// the program counter.
    pub open spec fn tick_result(self, op: Op, bits: u32) -> Result<
        Option<SyscallTraceView>,
        OperationError,
    > {
        if op is Illegal {
            Err(OperationError::IllegalInstruction(bits, unsigned_of(self.pc)))
        } else {
            execute_result(self, op)
        }
    }
}

impl<B: Bus> View for Cpu<B> {
    type V = CpuView;

    open(crate) spec fn view(&self) -> CpuView {
        CpuView {
            generic: self.generic@,
            float: self.float@,
            mem: self.mem@,
            pc: self.pc,
            is_debug: self.is_debug,
            running: self.running,
        }
    }
}

impl<B: Bus> Cpu<B> {
    /// The model of an engine is well formed.
    pub proof fn lemma_view(self)
        ensures
            self@.wf(),
    {
        self.generic.lemma_len();
        self.float.lemma_len();
    }

    /// An idle engine over `mem`: every register and the program counter
    /// are 0, tracing is off, and the engine is not running.
    pub fn new(mem: B) -> (cpu: Self)
        ensures
            cpu@.wf(),
            forall|i: int| 0 <= i < 32 ==> cpu@.generic[i] == 0,
            forall|i: int| 0 <= i < 32 ==> cpu@.float[i] == 0,
            cpu@.mem == mem@,
            cpu@.pc == 0,
            !cpu@.is_debug,
            !cpu@.running,
    {
        Self {
            generic: Gsr::new(),
            float: Fsr::new(),
            mem,
            pc: 0,
            is_debug: false,
            running: false,
        }
    }

    /// Sets the program counter.
    pub fn set_pc(&mut self, pc: isize)
        ensures
            final(self)@ == (CpuView { pc, ..old(self)@ }),
    {
        self.pc = pc
    }

    /// Switches tracing on or off.
    pub fn set_debug(&mut self, debug: bool)
        ensures
            final(self)@ == (CpuView { is_debug: debug, ..old(self)@ }),
    {
        self.is_debug = debug
    }

    /// Writes a general-purpose register; a write to `zero` is dropped.
    pub fn set_generic(&mut self, name: Generic, value: isize)
        ensures
            final(self)@ == old(self)@.set_generic(name, value),
    {
        if name != Generic::zero {
            self.generic.set(name, value);
        }
    }

    /// Reads a general-purpose register; `zero` reads as 0.
    pub fn get_generic(&self, name: Generic) -> (value: isize)
        ensures
            value == self@.get_generic(name),
    {
        if name != Generic::zero {
            self.generic.get(name)
        } else {
            0
        }
    }

    /// Writes a floating-point register.
    pub fn set_float(&mut self, name: Fcsr, value: isize)
        ensures
            final(self)@ == old(self)@.set_float(name, value),
    {
        self.float.set(name, value);
    }

    /// Reads a floating-point register.
    pub fn get_float(&self, name: Fcsr) -> (value: isize)
        ensures
            value == self@.get_float(name),
    {
        self.float.get(name)
    }

    /// Whether tracing is on.
    pub fn is_debug(&self) -> (debug: bool)
        ensures
            debug == self@.is_debug,
    {
        self.is_debug
    }

    /// Takes the engine from idle to running.
    pub fn start(&mut self)
        ensures
            final(self)@ == (CpuView { running: true, ..old(self)@ }),
    {
        self.running = true
    }

    /// Settles one turn of the run loop on what the turn came to. A fault
    /// halts the engine for good; the loop goes on where the turn came to no
    /// fault and the engine is still running.
    pub fn settle(&mut self, outcome: &Result<Option<SyscallTrace>, OperationError>) -> (go_on:
        bool)
        ensures
            final(self)@ == (if outcome is Err {
                CpuView { running: false, ..old(self)@ }
            } else {
                old(self)@
            }),
            go_on == (outcome is Ok && old(self)@.running),
    {
        match outcome {
            Ok(_) => self.running,
            Err(_) => {
                self.running = false;
                false
            },
        }
    }

    /// Executes the instruction that was fetched as `len` bytes with the raw
    /// bits `bits` and decoded to `op`.
    pub fn tick(&mut self, op: Op, len: u64, bits: u32) -> (r: Result<
        Option<SyscallTrace>,
        OperationError,
    >)
        ensures
            final(self)@ == old(self)@.tick_next(op, len),
            result_matches(r, old(self)@.tick_result(op, bits)),
    {
        match op {
            Op::Illegal => Err(OperationError::IllegalInstruction(bits, to_unsigned(self.pc))),
            _ => instruction_operation(op, self, #[verifier::truncate] (len as isize)),
        }
    }

    /// Fetches the instruction at the program counter: its length in bytes
    /// and its raw bits. The engine does not change.
    pub fn fetch_instruction(&self) -> (r: Result<(u64, u32), OperationError>)
        ensures
            r == self@.fetch(),
    {
        let pc = self.pc;
        let low: u16 = match self.mem.load(to_unsigned(pc)) {
            Ok(low) => low,
            Err(fault) => {
                return Err(fault);
            },
        };
        assert(low & 3 == 3 <==> low % 4 == 3) by (bit_vector);
        if low & 3 == 3 {
            assert(pc & 4095 == 4094 <==> pc % 4096 == 4094) by (bit_vector);
            if pc & 4095 == 4094 {
                return Err(OperationError::IllegalInstruction(low as u32, to_unsigned(pc)));
            }
            assert(pc + 2 <= isize::MAX) by {
                assert(isize::MAX == 0x7fff_ffff || isize::MAX == 0x7fff_ffff_ffff_ffff);
            }
            let high: u16 = match self.mem.load(to_unsigned(pc + 2)) {
                Ok(high) => high,
                Err(fault) => {
                    return Err(fault);
                },
            };
            assert((high as u32) << 16 | low as u32 == high * 0x1_0000 + low) by (bit_vector);
            Ok((4, (high as u32) << 16 | low as u32))
        } else {
            Ok((2, low as u32))
        }
    }
}

/// The zero register reads as 0 after any write to it.
pub proof fn lemma_zero_register(cpu: CpuView, value: isize)
    ensures
        cpu.set_generic(Generic::zero, value) == cpu,
        cpu.set_generic(Generic::zero, value).get_generic(Generic::zero) == 0,
{
}

/// A register other than zero reads as what was last written to it, and a
/// write to it leaves every other register as it reads.
pub proof fn lemma_set_then_get(cpu: CpuView, name: Generic, other: Generic, value: isize)
    requires
        cpu.wf(),
        name != Generic::zero,
    ensures
        cpu.set_generic(name, value).wf(),
        cpu.set_generic(name, value).get_generic(name) == value,
        other != name ==> cpu.set_generic(name, value).get_generic(other) == cpu.get_generic(
            other,
        ),
{
    name.lemma_index(other);
}

/// A tick keeps the register files at their 32 registers and the bus at its
/// range and size.
pub proof fn lemma_tick_keeps_shape(cpu: CpuView, op: Op, len: u64)
    requires
        cpu.wf(),
    ensures
        cpu.tick_next(op, len).wf(),
        cpu.tick_next(op, len).mem == cpu.mem,
        cpu.tick_next(op, len).float == cpu.float,
        cpu.tick_next(op, len).is_debug == cpu.is_debug,
{
    if op is Ecall {
        lemma_syscall_keeps_shape(cpu, syscall_args(cpu));
    }
}

/// A four-byte instruction whose first halfword is the last of its page is
/// illegal, and the fetch looks at nothing behind that halfword: two engines
/// with the same program counter and range whose memories agree on the two
/// bytes at the program counter fetch the same.
pub proof fn lemma_fetch_at_page_end(cpu: CpuView, other: CpuView)
    requires
        cpu.pc % 4096 == 4094,
        other.pc == cpu.pc,
        other.mem.range == cpu.mem.range,
        cpu.mem.window(cpu.mem.offset(unsigned_of(cpu.pc) as int), 2) == other.mem.window(
            other.mem.offset(unsigned_of(cpu.pc) as int),
            2,
        ),
    ensures
        cpu.fetch() == other.fetch(),
        match cpu.mem.load::<u16>(unsigned_of(cpu.pc)) {
            Ok(low) => low % 4 == 3 ==> cpu.fetch() == Err::<(u64, u32), OperationError>(
                OperationError::IllegalInstruction(low as u32, unsigned_of(cpu.pc)),
            ),
            Err(fault) => cpu.fetch() == Err::<(u64, u32), OperationError>(fault),
        },
{
}

} // verus!
