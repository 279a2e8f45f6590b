//! The faults that memory accesses and instruction execution can raise.

use vstd::prelude::*;
use vstd::string::StringExecFns;
use crate::text::{hex_text, push_hex};

verus! {

/// A fault raised by the bus or by the execution engine. Faults are plain
/// values: they are returned to the caller and never unwind.
#[derive(Debug, Clone, Copy, PartialEq, Eq, Structural)]
pub enum OperationError {
    /// A store whose bytes do not all lie inside the address range.
    StoreAddressFault(usize),
    /// A load whose bytes do not all lie inside the address range.
    LoadAddressFault(usize),
    /// A scalar access whose address is not a multiple of its width.
    UnalignedAccess(usize),
    /// An address that does not translate to an offset of the backing store.
    AddressOutOfRange(usize),
    /// Raw instruction bits that cannot be executed, and the address they
    /// were fetched from.
    IllegalInstruction(u32, usize),
    /// A condition that no other kind classifies.
    Unknown,
}

impl OperationError {
    /// The text that describes the fault. Addresses and instruction bits
    /// are in upper-case hexadecimal.
    pub open spec fn message_text(self) -> Seq<char> {
        match self {
            OperationError::StoreAddressFault(addr) => "store address fault from `"@ + hex_text(
                addr as nat,
                true,
            ) + "`"@,
            OperationError::LoadAddressFault(addr) => "load  address fault from `"@ + hex_text(
                addr as nat,
                true,
            ) + "`"@,
            OperationError::UnalignedAccess(addr) => "load or store address unaligned from `"@
                + hex_text(addr as nat, true) + "`"@,
            OperationError::AddressOutOfRange(addr) => "address `"@ + hex_text(addr as nat, true)
                + "` out of range"@,
            OperationError::IllegalInstruction(bits, addr) => "illegal instruction `"@ + hex_text(
                bits as nat,
                true,
            ) + "` from address `"@ + hex_text(addr as nat, true) + "`"@,
            OperationError::Unknown => "unknown data error"@,
        }
    }

    /// Describes the fault in words.
    pub fn message(&self) -> (text: String)
        ensures
            text@ == self.message_text(),
    {
        match self {
            OperationError::StoreAddressFault(addr) => {
                let mut text = String::from_str("store address fault from `");
                push_hex(&mut text, *addr, true);
                text.append("`");
                text
            },
            OperationError::LoadAddressFault(addr) => {
                let mut text = String::from_str("load  address fault from `");
                push_hex(&mut text, *addr, true);
                text.append("`");
                text
            },
            OperationError::UnalignedAccess(addr) => {
                let mut text = String::from_str("load or store address unaligned from `");
                push_hex(&mut text, *addr, true);
                text.append("`");
                text
            },
            OperationError::AddressOutOfRange(addr) => {
                let mut text = String::from_str("address `");
                push_hex(&mut text, *addr, true);
                text.append("` out of range");
                text
            },
            OperationError::IllegalInstruction(bits, addr) => {
                let mut text = String::from_str("illegal instruction `");
                push_hex(&mut text, *bits as usize, true);
                text.append("` from address `");
                push_hex(&mut text, *addr, true);
                text.append("`");
                text
            },
            OperationError::Unknown => String::from_str("unknown data error"),
        }
    }
}

} // verus!
