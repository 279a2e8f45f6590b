//! The memory bus: what every backing store offers the engine, stated over
//! a model of the address space.

use vstd::prelude::*;
use vstd::std_specs::range::RangeInclusiveView;
use core::ops::RangeInclusive;
use crate::error::OperationError;
use crate::scalar::{Scalar, le_bytes, le_value, lemma_le_bytes_len, lemma_le_round_trip};

verus! {

/// The model of a bus: the address range it answers to, and the bytes behind
/// it, one for each address of the range, in address order.
pub struct BusView {
    pub range: RangeInclusiveView<usize>,
    pub bytes: Seq<u8>,
}

/// The number of addresses that a range holds. A range that an iteration has
/// exhausted does not hold its upper bound.
pub open spec fn range_size(range: RangeInclusiveView<usize>) -> nat {
    if range.start > range.end {
        0
    } else if range.exhausted {
        (range.end - range.start) as nat
    } else {
        (range.end - range.start + 1) as nat
    }
}

impl BusView {
    /// Whether the address range holds `addr`.
    pub open spec fn contains(self, addr: int) -> bool {
        &&& self.range.start <= addr
        &&& if self.range.exhausted {
            addr < self.range.end
        } else {
            addr <= self.range.end
        }
    }

    /// The number of addresses in the range.
    pub open spec fn size(self) -> nat {
        range_size(self.range)
    }

    /// There is one byte behind each address.
    pub open spec fn wf(self) -> bool {
        self.bytes.len() == self.size()
    }

    /// The position in `bytes` of the byte behind `addr`.
    pub open spec fn offset(self, addr: int) -> int {
        addr - self.range.start
    }

    /// Address translation: the offset of an address of the range.
    pub open spec fn translate(self, addr: usize) -> Result<usize, OperationError> {
        if self.contains(addr as int) {
            Ok(self.offset(addr as int) as usize)
        } else {
            Err(OperationError::AddressOutOfRange(addr))
        }
    }

    /// Whether the first and the last byte of a `width`-byte access at `addr`
    /// lie in the range.
    pub open spec fn covers(self, addr: int, width: nat) -> bool {
        self.contains(addr) && self.contains(addr + width - 1)
    }

    /// The `len` bytes from position `at` on.
    pub open spec fn window(self, at: int, len: nat) -> Seq<u8> {
        self.bytes.subrange(at, at + len)
    }

    /// The bus with `data` written over the bytes from position `at` on.
    pub open spec fn overwrite(self, at: int, data: Seq<u8>) -> BusView {
        BusView {
            range: self.range,
            bytes: Seq::new(
                self.bytes.len(),
                |i: int|
                    if at <= i < at + data.len() {
                        data[i - at]
                    } else {
                        self.bytes[i]
                    },
            ),
        }
    }

    /// What a scalar load at `addr` returns. Alignment is checked first, then
    /// the bounds of the whole access; the bytes are read least significant
    /// first.
    pub open spec fn load<T: Scalar>(self, addr: usize) -> Result<T, OperationError> {
        if addr as int % T::width() as int != 0 {
            Err(OperationError::UnalignedAccess(addr))
        } else if !self.covers(addr as int, T::width()) {
            Err(OperationError::LoadAddressFault(addr))
        } else {
            Ok(T::from_nat(le_value(self.window(self.offset(addr as int), T::width()))))
        }
    }

    /// What a scalar store at `addr` returns.
    pub open spec fn store_result<T: Scalar>(self, addr: usize) -> Result<(), OperationError> {
        if addr as int % T::width() as int != 0 {
            Err(OperationError::UnalignedAccess(addr))
        } else if !self.covers(addr as int, T::width()) {
            Err(OperationError::StoreAddressFault(addr))
        } else {
            Ok(())
        }
    }

    /// The bus after a scalar store at `addr`: unchanged when the store
    /// faults.
    pub open spec fn store<T: Scalar>(self, addr: usize, data: T) -> BusView {
        if self.store_result::<T>(addr) is Ok {
            self.overwrite(self.offset(addr as int), le_bytes(data.to_nat(), T::width()))
        } else {
            self
        }
    }

    /// The address at which a `len`-byte span from `addr` fails to
    /// translate, if there is one: `addr` itself, or else the end boundary
    /// `addr + len`, taken modulo the word size where the span wraps round
    /// the address space.
    pub open spec fn span_fault(self, addr: usize, len: usize) -> Option<usize> {
        if !self.contains(addr as int) {
            Some(addr)
        } else if addr + len > usize::MAX || !self.contains(addr + len) {
            Some(addr.wrapping_add(len))
        } else {
            None
        }
    }

    /// What a byte-range read of `len` bytes from `addr` returns.
    pub open spec fn read_bytes(self, addr: usize, len: usize) -> Result<Seq<u8>, OperationError> {
        match self.span_fault(addr, len) {
            Some(at) => Err(OperationError::LoadAddressFault(at)),
            None => Ok(self.window(self.offset(addr as int), len as nat)),
        }
    }

    /// What a byte-range write of `len` bytes at `addr` returns.
    pub open spec fn write_result(self, addr: usize, len: usize) -> Result<(), OperationError> {
        match self.span_fault(addr, len) {
            Some(at) => Err(OperationError::StoreAddressFault(at)),
            None => Ok(()),
        }
    }

    /// The bus after a byte-range write of `data` at `addr`: unchanged when
    /// the write faults.
    pub open spec fn write_bytes(self, addr: usize, data: Seq<u8>) -> BusView {
        if self.span_fault(addr, data.len() as usize) is None {
            self.overwrite(self.offset(addr as int), data)
        } else {
            self
        }
    }

    /// The bus after seeding it with `image`, which goes to the start of the
    /// storage wherever the address range begins.
    pub open spec fn init_from(self, image: Seq<u8>) -> BusView {
        self.overwrite(0, image)
    }
}

/// Scalar access to a bus, at the width of `T`.
pub trait BusOperation<T: Scalar>: View<V = BusView> {
    /// Reads the scalar at `addr`.
    fn load(&self, addr: usize) -> (r: Result<T, OperationError>)
        ensures
            r == self@.load::<T>(addr),
    ;

    /// Writes the scalar `data` at `addr`.
    fn store(&mut self, addr: usize, data: T) -> (r: Result<(), OperationError>)
        ensures
            r == old(self)@.store_result::<T>(addr),
            final(self)@ == old(self)@.store::<T>(addr, data),
    ;
}

/// A backing store for the engine's address space: scalar access at every
/// supported width, byte-range access, and seeding with an initial image.
pub trait Bus:
    BusOperation<u8> + BusOperation<u16> + BusOperation<u32> + BusOperation<u64> + BusOperation<usize>
{
    /// Copies `data` to the start of the storage.
    fn init_from(&mut self, data: &[u8]) -> (r: Result<(), OperationError>)
        requires
            data@.len() <= old(self)@.bytes.len(),
        ensures
            r is Ok,
            final(self)@ == old(self)@.init_from(data@),
    ;

    /// The address range that the bus answers to.
    fn address_range(&self) -> (r: &RangeInclusive<usize>)
        ensures
            r@ == self@.range,
    ;

    /// Borrows the `len` bytes from `addr` on.
    fn read_bytes(&self, addr: usize, len: usize) -> (r: Result<&[u8], OperationError>)
        ensures
            match r {
                Ok(bytes) => self@.read_bytes(addr, len) == Ok::<Seq<u8>, OperationError>(bytes@),
                Err(e) => self@.read_bytes(addr, len) == Err::<Seq<u8>, OperationError>(e),
            },
    ;

    /// Writes `data` over the bytes from `addr` on.
    fn write_bytes(&mut self, addr: usize, data: &[u8]) -> (r: Result<(), OperationError>)
        ensures
            r == old(self)@.write_result(addr, data@.len() as usize),
            final(self)@ == old(self)@.write_bytes(addr, data@),
    ;
}

/// A scalar stored at an aligned address of the range, with its last byte in
/// the range too, is what a load of the same width at that address returns.
pub proof fn lemma_store_then_load<T: Scalar>(bus: BusView, addr: usize, data: T)
    requires
        bus.wf(),
        addr as int % T::width() as int == 0,
        bus.covers(addr as int, T::width()),
    ensures
        bus.store_result::<T>(addr) == Ok::<(), OperationError>(()),
        bus.store::<T>(addr, data).wf(),
        bus.store::<T>(addr, data).load::<T>(addr) == Ok::<T, OperationError>(data),
{
    let bytes = le_bytes(data.to_nat(), T::width());
    let after = bus.store::<T>(addr, data);
    T::lemma_width();
    data.lemma_to_nat();
    lemma_le_bytes_len(data.to_nat(), T::width());
    lemma_le_round_trip(data.to_nat(), T::width());
    assert(after.window(after.offset(addr as int), T::width()) =~= bytes);
}

/// A scalar access at an address that is not a multiple of the width fails
/// with `UnalignedAccess` of that address, wherever the address lies, and a
/// store there leaves every byte as it was.
pub proof fn lemma_unaligned_access<T: Scalar>(bus: BusView, addr: usize, data: T)
    requires
        addr as int % T::width() as int != 0,
    ensures
        bus.load::<T>(addr) == Err::<T, OperationError>(OperationError::UnalignedAccess(addr)),
        bus.store_result::<T>(addr) == Err::<(), OperationError>(
            OperationError::UnalignedAccess(addr),
        ),
        bus.store::<T>(addr, data) == bus,
{
}

/// An aligned scalar access that begins below the range or ends above it
/// fails with the address fault of its direction, which carries the address,
/// and a store there leaves every byte as it was.
pub proof fn lemma_out_of_range_access<T: Scalar>(bus: BusView, addr: usize, data: T)
    requires
        addr as int % T::width() as int == 0,
        addr < bus.range.start || addr + T::width() - 1 > bus.range.start + bus.size() - 1,
    ensures
        bus.load::<T>(addr) == Err::<T, OperationError>(OperationError::LoadAddressFault(addr)),
        bus.store_result::<T>(addr) == Err::<(), OperationError>(
            OperationError::StoreAddressFault(addr),
        ),
        bus.store::<T>(addr, data) == bus,
{
    T::lemma_width();
}

/// Seeding a bus twice with the same image gives what seeding it once gives.
pub proof fn lemma_init_from_idempotent(bus: BusView, image: Seq<u8>)
    ensures
        bus.init_from(image).init_from(image) == bus.init_from(image),
{
    assert(bus.init_from(image).init_from(image).bytes =~= bus.init_from(image).bytes);
}

/// A seeded bus holds the image in its first bytes and what it held before
/// behind them.
pub proof fn lemma_init_from_bytes(bus: BusView, image: Seq<u8>)
    requires
        image.len() <= bus.bytes.len(),
    ensures
        bus.init_from(image).range == bus.range,
        bus.init_from(image).bytes == image + bus.bytes.subrange(
            image.len() as int,
            bus.bytes.len() as int,
        ),
{
    assert(bus.init_from(image).bytes =~= image + bus.bytes.subrange(
        image.len() as int,
        bus.bytes.len() as int,
    ));
}

} // verus!
