//! A user-mode emulator core for a RISC-V-family machine: a register file, a
//! bounds- and alignment-checked memory bus, the instruction semantics of a
//! small operation set and a minimal system-call layer.

pub mod bus;
pub mod cpu;
pub mod error;
pub mod memory;
pub mod operation;
pub mod register;
pub mod scalar;
pub mod syscall;
pub mod syscall_handler;
pub mod text;
pub mod word;

pub use bus::{Bus, BusOperation};
pub use cpu::Cpu;
pub use error::OperationError;
pub use memory::Memory;
pub use operation::Op;
pub use register::{Fcsr, Generic, Register};
pub use syscall::Sysno;
