//! The system-call layer: what a trap instruction does to the engine.

use vstd::prelude::*;
use vstd::string::StringExecFns;
use crate::bus::Bus;
use crate::cpu::{Cpu, CpuView};
use crate::error::OperationError;
use crate::register::Generic;
use crate::syscall::Sysno;
use crate::word::{unsigned_of, to_unsigned};
use crate::text::{decimal_text, digit_char, hex_text, push_decimal, push_hex};

verus! {

/// The registers of one trap: the system call that `a7` asks for, and the
/// argument registers `a0` to `a6`.
#[derive(Debug, Clone, PartialEq, Eq)]
pub struct SyscallArgs {
    no: Option<Sysno>,
    args: [usize; 7],
}

/// The model of [`SyscallArgs`].
pub struct SyscallArgsView {
    /// The system call, where `a7` holds the number of one.
    pub no: Option<Sysno>,
    /// The values of `a0` to `a6`, in that order.
    pub args: Seq<usize>,
}

impl View for SyscallArgs {
    type V = SyscallArgsView;

    closed spec fn view(&self) -> SyscallArgsView {
        SyscallArgsView { no: self.no, args: self.args@ }
    }
}

/// What an emulated system call did, for the diagnostics of the host.
#[derive(Debug, Clone, PartialEq, Eq)]
pub enum SyscallEffect {
    /// `write`: the bytes that the guest handed over.
    Write { data: Vec<u8> },
    /// `exit`: the status that the guest left with.
    Exit { status: usize },
    /// Any other system call: nothing was done.
    Ignored,
}

/// The model of [`SyscallEffect`].
pub enum SyscallEffectView {
    Write { data: Seq<u8> },
    Exit { status: usize },
    Ignored,
}

impl View for SyscallEffect {
    type V = SyscallEffectView;

    open spec fn view(&self) -> SyscallEffectView {
        match self {
            SyscallEffect::Write { data } => SyscallEffectView::Write { data: data@ },
            SyscallEffect::Exit { status } => SyscallEffectView::Exit { status: *status },
            SyscallEffect::Ignored => SyscallEffectView::Ignored,
        }
    }
}

/// One dispatched system call: what was asked for and what was done.
#[derive(Debug, Clone, PartialEq, Eq)]
pub struct SyscallTrace {
    pub args: SyscallArgs,
    pub effect: SyscallEffect,
}

/// The model of [`SyscallTrace`].
pub struct SyscallTraceView {
    pub args: SyscallArgsView,
    pub effect: SyscallEffectView,
}

impl View for SyscallTrace {
    type V = SyscallTraceView;

    open spec fn view(&self) -> SyscallTraceView {
        SyscallTraceView { args: self.args@, effect: self.effect@ }
    }
}

/// The trap registers of an engine, each read as an unsigned value.
pub open spec fn syscall_args(cpu: CpuView) -> SyscallArgsView {
    SyscallArgsView {
        no: Sysno::numbered(unsigned_of(cpu.get_generic(Generic::a7))),
        args: seq![
            unsigned_of(cpu.get_generic(Generic::a0)),
            unsigned_of(cpu.get_generic(Generic::a1)),
            unsigned_of(cpu.get_generic(Generic::a2)),
            unsigned_of(cpu.get_generic(Generic::a3)),
            unsigned_of(cpu.get_generic(Generic::a4)),
            unsigned_of(cpu.get_generic(Generic::a5)),
            unsigned_of(cpu.get_generic(Generic::a6)),
        ],
    }
}

/// What the system call that `args` asks for does to the engine, and what
/// it reports.
///
/// `write` reads `args[2]` bytes at address `args[1]` through the bus and
/// sets `a0` to 0; a bus fault is returned and leaves the engine as it was.
/// `exit` clears the running flag. Every other system call does nothing.
pub open spec fn syscall_effect(cpu: CpuView, args: SyscallArgsView) -> (
    CpuView,
    Result<SyscallEffectView, OperationError>,
) {
    match args.no {
        Some(Sysno::write) => match cpu.mem.read_bytes(args.args[1], args.args[2]) {
            Ok(data) => (
                cpu.set_generic(Generic::a0, 0),
                Ok(SyscallEffectView::Write { data }),
            ),
            Err(fault) => (cpu, Err(fault)),
        },
        Some(Sysno::exit) => (
            CpuView { running: false, ..cpu },
            Ok(SyscallEffectView::Exit { status: args.args[0] }),
        ),
        _ => (cpu, Ok(SyscallEffectView::Ignored)),
    }
}

/// The engine after a trap.
pub open spec fn syscall_next(cpu: CpuView) -> CpuView {
    syscall_effect(cpu, syscall_args(cpu)).0
}

/// What a trap reports.
pub open spec fn syscall_result(cpu: CpuView) -> Result<SyscallTraceView, OperationError> {
    match syscall_effect(cpu, syscall_args(cpu)).1 {
        Ok(effect) => Ok(SyscallTraceView { args: syscall_args(cpu), effect }),
        Err(fault) => Err(fault),
    }
}

/// A system call changes nothing of the engine but register `a0` and the
/// running flag.
pub proof fn lemma_syscall_keeps_shape(cpu: CpuView, args: SyscallArgsView)
    requires
        cpu.wf(),
    ensures
        syscall_effect(cpu, args).0.wf(),
        syscall_effect(cpu, args).0.mem == cpu.mem,
        syscall_effect(cpu, args).0.float == cpu.float,
        syscall_effect(cpu, args).0.pc == cpu.pc,
        syscall_effect(cpu, args).0.is_debug == cpu.is_debug,
        forall|name: Generic|
            name != Generic::a0 ==> syscall_effect(cpu, args).0.get_generic(name)
                == cpu.get_generic(name),
{
    assert forall|name: Generic| name != Generic::a0 implies syscall_effect(
        cpu,
        args,
    ).0.get_generic(name) == cpu.get_generic(name) by {
        name.lemma_index(Generic::a0);
    }
}

impl SyscallArgs {
    /// Reads the trap registers of `cpu`.
    pub fn from_register<B: Bus>(cpu: &Cpu<B>) -> (r: Self)
        ensures
            r@ == syscall_args(cpu@),
    {
        let r = SyscallArgs {
            no: Sysno::new(to_unsigned(cpu.get_generic(Generic::a7))),
            args: [
                to_unsigned(cpu.get_generic(Generic::a0)),
                to_unsigned(cpu.get_generic(Generic::a1)),
                to_unsigned(cpu.get_generic(Generic::a2)),
                to_unsigned(cpu.get_generic(Generic::a3)),
                to_unsigned(cpu.get_generic(Generic::a4)),
                to_unsigned(cpu.get_generic(Generic::a5)),
                to_unsigned(cpu.get_generic(Generic::a6)),
            ],
        };
        assert(r@.args =~= syscall_args(cpu@).args);
        r
    }

    /// The system call that was asked for, where its number is known.
    pub fn no(&self) -> (no: Option<Sysno>)
        ensures
            no == self@.no,
    {
        self.no
    }

    /// The value of argument register `n`.
    pub fn arg(&self, n: usize) -> (value: usize)
        requires
            n < 7,
        ensures
            value == self@.args[n as int],
    {
        self.args[n]
    }
}

impl SyscallEffect {
    /// Whether the guest left with a status other than 0.
    pub fn is_failure(&self) -> (failed: bool)
        ensures
            failed <==> (self@ matches SyscallEffectView::Exit { status } && status != 0),
    {
        match self {
            SyscallEffect::Exit { status } => *status != 0,
            _ => false,
        }
    }
}

/// Dispatches the system call that the trap registers of `cpu` ask for.
pub fn syscall_handler<B: Bus>(cpu: &mut Cpu<B>) -> (r: Result<SyscallTrace, OperationError>)
    ensures
        final(cpu)@ == syscall_next(old(cpu)@),
        match r {
            Ok(trace) => syscall_result(old(cpu)@) == Ok::<SyscallTraceView, OperationError>(
                trace@,
            ),
            Err(fault) => syscall_result(old(cpu)@) == Err::<SyscallTraceView, OperationError>(
                fault,
            ),
        },
{
    let syscall = SyscallArgs::from_register(cpu);
    match syscall.no {
        Some(Sysno::write) => {
            let data = match cpu.mem.read_bytes(syscall.arg(1), syscall.arg(2)) {
                Ok(bytes) => vstd::slice::slice_to_vec(bytes),
                Err(fault) => {
                    return Err(fault);
                },
            };
            cpu.set_generic(Generic::a0, 0);
            Ok(SyscallTrace { args: syscall, effect: SyscallEffect::Write { data } })
        },
        Some(Sysno::exit) => {
            let status = syscall.arg(0);
            cpu.running = false;
            Ok(SyscallTrace { args: syscall, effect: SyscallEffect::Exit { status } })
        },
        _ => Ok(SyscallTrace { args: syscall, effect: SyscallEffect::Ignored }),
    }
}

/// The text that `String::from_utf8_lossy` decodes `bytes` to.
pub uninterp spec fn utf8_lossy_text(bytes: Seq<u8>) -> Seq<char>;

/// The text that the `{:?}` format of a string slice makes of `text`.
pub uninterp spec fn debug_text(text: Seq<char>) -> Seq<char>;

/// `String::from_utf8_lossy`: decodes bytes as UTF-8 and puts U+FFFD in place
/// of what is no UTF-8. The contract only names the text that comes out.
#[verifier::external_body]
fn utf8_lossy(bytes: &[u8]) -> (text: String)
    ensures
        text@ == utf8_lossy_text(bytes@),
{
    String::from_utf8_lossy(bytes).into_owned()
}

/// The `{:?}` format of a string slice: the text in double quotes, with
/// escapes. The contract only names the text that comes out.
#[verifier::external_body]
fn debug_quoted(text: &str) -> (quoted: String)
    ensures
        quoted@ == debug_text(text@),
{
    format!("{:?}", text)
}

/// The text that introduces argument register `n`.
pub open spec fn arg_label(n: nat) -> Seq<char> {
    seq![',', ' ', 'a', digit_char(n, false), ':', ' ']
}

/// The text of the first `count` argument registers, each as its label and
/// its value in lower-case hexadecimal.
pub open spec fn args_text(args: Seq<usize>, count: nat) -> Seq<char>
    decreases count,
{
    if count == 0 {
        Seq::empty()
    } else {
        args_text(args, (count - 1) as nat) + arg_label((count - 1) as nat) + hex_text(
            args[count - 1] as nat,
            false,
        )
    }
}

/// The text that names a system call; one with an unknown number is
/// `unknown`.
pub open spec fn name_text(no: Option<Sysno>) -> Seq<char> {
    match no {
        Some(sysno) => sysno.label(),
        None => "unknown"@,
    }
}

impl SyscallArgsView {
    /// The text of a trap: the name of the system call and the seven
    /// argument registers.
    pub open spec fn text(self) -> Seq<char> {
        name_text(self.no) + args_text(self.args, 7)
    }
}

impl SyscallEffectView {
    /// The text that reports the effect, if there is anything to report:
    /// what was written, decoded as UTF-8 and quoted, or the exit status in
    /// decimal.
    pub open spec fn text(self) -> Option<Seq<char>> {
        match self {
            SyscallEffectView::Write { data } => Some(debug_text(utf8_lossy_text(data))),
            SyscallEffectView::Exit { status } => Some(
                "exit("@ + decimal_text(status as nat) + ")"@,
            ),
            SyscallEffectView::Ignored => None,
        }
    }
}

/// The text that introduces argument register `n`.
fn arg_label_text(n: usize) -> (text: &'static str)
    requires
        n < 7,
    ensures
        text@ == arg_label(n as nat),
{
    proof {
        reveal_strlit(", a0: ");
        reveal_strlit(", a1: ");
        reveal_strlit(", a2: ");
        reveal_strlit(", a3: ");
        reveal_strlit(", a4: ");
        reveal_strlit(", a5: ");
        reveal_strlit(", a6: ");
    }
    let text = match n {
        0 => ", a0: ",
        1 => ", a1: ",
        2 => ", a2: ",
        3 => ", a3: ",
        4 => ", a4: ",
        5 => ", a5: ",
        _ => ", a6: ",
    };
    assert(text@ =~= arg_label(n as nat));
    text
}

impl SyscallArgs {
    /// Names the system call and lists the argument registers.
    pub fn describe(&self) -> (text: String)
        ensures
            text@ == self@.text(),
    {
        let mut text = match self.no {
            Some(sysno) => String::from_str(sysno.name()),
            None => String::from_str("unknown"),
        };
        let ghost name = text@;
        let mut n: usize = 0;
        while n < 7
            invariant
                0 <= n <= 7,
                name == name_text(self@.no),
                text@ == name + args_text(self@.args, n as nat),
            decreases 7 - n,
        {
            let ghost before = text@;
            text.append(arg_label_text(n));
            push_hex(&mut text, self.args[n], false);
            assert(text@ =~= name + args_text(self@.args, (n + 1) as nat));
            n += 1;
        }
        text
    }
}

impl SyscallEffect {
    /// Reports the effect in words, if there is anything to report.
    pub fn describe(&self) -> (text: Option<String>)
        ensures
            match text {
                Some(text) => self@.text() == Some(text@),
                None => self@.text().is_none(),
            },
    {
        match self {
            SyscallEffect::Write { data } => {
                let decoded = utf8_lossy(data.as_slice());
                Some(debug_quoted(decoded.as_str()))
            },
            SyscallEffect::Exit { status } => {
                let mut text = String::from_str("exit(");
                push_decimal(&mut text, *status);
                text.append(")");
                Some(text)
            },
            SyscallEffect::Ignored => None,
        }
    }
}

} // verus!
