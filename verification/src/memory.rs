//! A flat backing store: one contiguous buffer bound to an address range.

use vstd::prelude::*;
use core::ops::RangeInclusive;
use crate::bus::{Bus, BusOperation, BusView, range_size};
use crate::error::OperationError;
use crate::scalar::{
    Scalar, le_bytes, le_value, lemma_le_bytes_index, lemma_le_bytes_len, lemma_span_values,
    span,
};

verus! {

/// `RangeInclusive::start`: the lower bound that the range was made with.
pub assume_specification<Idx>[ RangeInclusive::<Idx>::start ](r: &RangeInclusive<Idx>) -> (b: &Idx)
    ensures
        *b == r@.start,
;

/// `RangeInclusive::end`: the upper bound that the range was made with.
pub assume_specification<Idx>[ RangeInclusive::<Idx>::end ](r: &RangeInclusive<Idx>) -> (b: &Idx)
    ensures
        *b == r@.end,
;

/// An aligned access never runs past the last address of the machine.
proof fn lemma_aligned_fits(addr: usize, width: usize)
    requires
        width == 1 || width == 2 || width == 4 || width == 8,
        addr % width == 0,
    ensures
        addr + width - 1 <= usize::MAX,
{
}

/// Flat memory: a byte buffer with one byte for each address of its range.
pub struct Memory {
    data: Vec<u8>,
    range: RangeInclusive<usize>,
}

impl View for Memory {
    type V = BusView;

    closed spec fn view(&self) -> BusView {
        BusView {
            range: self.range@,
            bytes: Seq::new(range_size(self.range@), |i: int| self.data@[i]),
        }
    }
}

impl Memory {
    /// The buffer has one byte for each address of the range.
    #[verifier::type_invariant]
    spec fn inv(self) -> bool {
        self.data@.len() == range_size(self.range@)
    }

    /// The model of a memory is well formed: it has one byte for each
    /// address of its range.
    pub proof fn lemma_wf(&self)
        ensures
            self@.wf(),
    {
    }

    /// Zero-filled memory that answers to `range`, with one byte for each
    /// address of the range. The number of addresses has to fit a `usize`.
    pub fn new(range: RangeInclusive<usize>) -> (m: Memory)
        requires
            range_size(range@) <= usize::MAX,
        ensures
            m@.wf(),
            m@ == (BusView { range: range@, bytes: Seq::new(range_size(range@), |i: int| 0u8) }),
    {
        let start = *range.start();
        let end = *range.end();
        let size = if start > end {
            0
        } else if range.contains(&end) {
            end - start + 1
        } else {
            end - start
        };
        let m = Memory { data: vec![0u8; size], range };
        assert(m@.bytes =~= Seq::new(range_size(range@), |i: int| 0u8));
        m
    }

    /// Translates an address of the range to its offset in the buffer.
    pub fn get_address(&self, addr: usize) -> (r: Result<usize, OperationError>)
        ensures
            r == self@.translate(addr),
    {
        if self.range.contains(&addr) {
            Ok(addr - *self.range.start())
        } else {
            Err(OperationError::AddressOutOfRange(addr))
        }
    }

    /// Reads the scalar at `addr`: checks the alignment, then the bounds, and
    /// gathers the bytes from the most significant one down.
    fn load_interger<T: Scalar>(&self, addr: usize) -> (r: Result<T, OperationError>)
        ensures
            r == self@.load::<T>(addr),
    {
        proof {
            use_type_invariant(self);
            assert(self@.bytes =~= self.data@);
            T::lemma_width();
            lemma_span_values();
        }
        let width = core::mem::size_of::<T>();
        if addr % width != 0 {
            return Err(OperationError::UnalignedAccess(addr));
        }
        proof {
            lemma_aligned_fits(addr, width);
        }
        if self.get_address(addr).is_err() || self.get_address(addr + (width - 1)).is_err() {
            return Err(OperationError::LoadAddressFault(addr));
        }
        let offset = addr - *self.range.start();
        let ghost bytes = self@.window(offset as int, width as nat);
        let mut value: u64 = 0;
        let mut i = width;
        while i > 0
            invariant
                0 <= i <= width <= 8,
                offset + width <= self.data.len(),
                bytes == self.data@.subrange(offset as int, offset + width),
                value == le_value(bytes.subrange(i as int, width as int)),
                value < span((width - i) as nat),
            decreases i,
        {
            i -= 1;
            proof {
                lemma_span_values();
                let tail = bytes.subrange(i as int, width as int);
                assert(tail.drop_first() =~= bytes.subrange(i + 1, width as int));
                assert(tail[0] == self.data@[offset + i]);
            }
            value = value * 256 + self.data[offset + i] as u64;
        }
        assert(bytes.subrange(0, width as int) =~= bytes);
        Ok(T::from_u64(value))
    }

    /// Writes the scalar `data` at `addr`: checks the alignment, then the
    /// bounds, and lays the bytes down from the least significant one up.
    fn store_interger<T: Scalar>(&mut self, addr: usize, data: T) -> (r: Result<(), OperationError>)
        ensures
            r == old(self)@.store_result::<T>(addr),
            final(self)@ == old(self)@.store::<T>(addr, data),
    {
        proof {
            use_type_invariant(&*self);
            assert(self@.bytes =~= self.data@);
            T::lemma_width();
            data.lemma_to_nat();
            lemma_span_values();
        }
        let width = core::mem::size_of::<T>();
        if addr % width != 0 {
            return Err(OperationError::UnalignedAccess(addr));
        }
        proof {
            lemma_aligned_fits(addr, width);
        }
        if self.get_address(addr).is_err() || self.get_address(addr + (width - 1)).is_err() {
            return Err(OperationError::StoreAddressFault(addr));
        }
        let offset = addr - *self.range.start();
        let ghost bytes = le_bytes(data.to_nat(), width as nat);
        proof {
            lemma_le_bytes_len(data.to_nat(), width as nat);
        }
        let mut value: u64 = data.to_u64();
        let mut i: usize = 0;
        while i < width
            invariant
                0 <= i <= width <= 8,
                offset + width <= self.data.len(),
                self.range == old(self).range,
                self.data.len() == old(self).data.len(),
                self.data@.len() == range_size(self.range@),
                bytes == le_bytes(data.to_nat(), width as nat),
                bytes.len() == width,
                value == data.to_nat() / span(i as nat),
                forall|j: int|
                    0 <= j < self.data.len() ==> self.data@[j] == if offset <= j < offset + i {
                        bytes[j - offset]
                    } else {
                        old(self).data@[j]
                    },
            decreases width - i,
        {
            proof {
                lemma_span_values();
                lemma_le_bytes_index(data.to_nat(), width as nat, i as nat);
                let n = data.to_nat();
                assert(span((i + 1) as nat) == 256 * span(i as nat));
                assert((n / span(i as nat)) / 256 == n / span((i + 1) as nat)) by {
                    vstd::arithmetic::div_mod::lemma_div_denominator(
                        n as int,
                        span(i as nat) as int,
                        256,
                    );
                    assert(span(i as nat) * 256 == 256 * span(i as nat));
                }
            }
            self.data[offset + i] = (value % 256) as u8;
            value = value / 256;
            i += 1;
        }
        assert(self@.bytes =~= old(self)@.store::<T>(addr, data).bytes);
        Ok(())
    }
}

impl Memory {
    /// Copies `data` over the buffer from position `at` on.
    fn copy_in(&mut self, at: usize, data: &[u8])
        requires
            at + data@.len() <= old(self)@.bytes.len(),
        ensures
            final(self)@ == old(self)@.overwrite(at as int, data@),
    {
        proof {
            use_type_invariant(&*self);
            assert(self@.bytes =~= self.data@);
        }
        let mut i: usize = 0;
        while i < data.len()
            invariant
                0 <= i <= data@.len(),
                at + data@.len() <= self.data.len(),
                self.range == old(self).range,
                self.data.len() == old(self).data.len(),
                self.data@.len() == range_size(self.range@),
                forall|j: int|
                    0 <= j < self.data.len() ==> self.data@[j] == if at <= j < at + i {
                        data@[j - at]
                    } else {
                        old(self).data@[j]
                    },
            decreases data@.len() - i,
        {
            self.data[at + i] = data[i];
            i += 1;
        }
        assert(self@.bytes =~= old(self)@.overwrite(at as int, data@).bytes);
    }
}

impl Bus for Memory {
    fn init_from(&mut self, data: &[u8]) -> (r: Result<(), OperationError>) {
        self.copy_in(0, data);
        Ok(())
    }

    fn address_range(&self) -> (r: &RangeInclusive<usize>) {
        &self.range
    }

    fn read_bytes(&self, addr: usize, len: usize) -> (r: Result<&[u8], OperationError>) {
        proof {
            use_type_invariant(self);
            assert(self@.bytes =~= self.data@);
        }
        let start = match self.get_address(addr) {
            Ok(start) => start,
            Err(_) => {
                return Err(OperationError::LoadAddressFault(addr));
            },
        };
        let boundary = addr.wrapping_add(len);
        if boundary < addr {
            return Err(OperationError::LoadAddressFault(boundary));
        }
        let end = match self.get_address(boundary) {
            Ok(end) => end,
            Err(_) => {
                return Err(OperationError::LoadAddressFault(boundary));
            },
        };
        Ok(vstd::slice::slice_subrange(self.data.as_slice(), start, end))
    }

    fn write_bytes(&mut self, addr: usize, data: &[u8]) -> (r: Result<(), OperationError>) {
        proof {
            use_type_invariant(&*self);
            assert(self@.bytes =~= self.data@);
        }
        let len = data.len();
        let start = match self.get_address(addr) {
            Ok(start) => start,
            Err(_) => {
                return Err(OperationError::StoreAddressFault(addr));
            },
        };
        let boundary = addr.wrapping_add(len);
        if boundary < addr {
            return Err(OperationError::StoreAddressFault(boundary));
        }
        if self.get_address(boundary).is_err() {
            return Err(OperationError::StoreAddressFault(boundary));
        }
        self.copy_in(start, data);
        Ok(())
    }
}

impl BusOperation<u8> for Memory {
    fn load(&self, addr: usize) -> (r: Result<u8, OperationError>) {
        self.load_interger(addr)
    }

    fn store(&mut self, addr: usize, data: u8) -> (r: Result<(), OperationError>) {
        self.store_interger(addr, data)
    }
}

impl BusOperation<u16> for Memory {
    fn load(&self, addr: usize) -> (r: Result<u16, OperationError>) {
        self.load_interger(addr)
    }

    fn store(&mut self, addr: usize, data: u16) -> (r: Result<(), OperationError>) {
        self.store_interger(addr, data)
    }
}

impl BusOperation<u32> for Memory {
    fn load(&self, addr: usize) -> (r: Result<u32, OperationError>) {
        self.load_interger(addr)
    }

    fn store(&mut self, addr: usize, data: u32) -> (r: Result<(), OperationError>) {
        self.store_interger(addr, data)
    }
}

impl BusOperation<u64> for Memory {
    fn load(&self, addr: usize) -> (r: Result<u64, OperationError>) {
        self.load_interger(addr)
    }

    fn store(&mut self, addr: usize, data: u64) -> (r: Result<(), OperationError>) {
        self.store_interger(addr, data)
    }
}

impl BusOperation<usize> for Memory {
    fn load(&self, addr: usize) -> (r: Result<usize, OperationError>) {
        self.load_interger(addr)
    }

    fn store(&mut self, addr: usize, data: usize) -> (r: Result<(), OperationError>) {
        self.store_interger(addr, data)
    }
}

} // verus!
