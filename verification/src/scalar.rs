//! Scalars that travel over the bus, and their little-endian byte form.

use vstd::prelude::*;
use vstd::arithmetic::power::pow;
use vstd::layout::size_of;

verus! {

/// The number that a byte string denotes when read least significant byte
/// first.
pub open spec fn le_value(bytes: Seq<u8>) -> nat
    decreases bytes.len(),
{
    if bytes.len() == 0 {
        0
    } else {
        bytes[0] as nat + 256 * le_value(bytes.drop_first())
    }
}

/// The `width` low-order bytes of `value`, least significant byte first.
pub open spec fn le_bytes(value: nat, width: nat) -> Seq<u8>
    decreases width,
{
    if width == 0 {
        Seq::empty()
    } else {
        seq![(value % 256) as u8] + le_bytes(value / 256, (width - 1) as nat)
    }
}

/// `256` to the power `width`: the number of values that `width` bytes hold.
pub open spec fn span(width: nat) -> nat {
    pow(256, width) as nat
}

/// The spans of the widths up to eight bytes.
pub proof fn lemma_span_values()
    ensures
        span(0) == 1,
        span(1) == 0x100,
        span(2) == 0x1_0000,
        span(3) == 0x100_0000,
        span(4) == 0x1_0000_0000,
        span(5) == 0x100_0000_0000,
        span(6) == 0x1_0000_0000_0000,
        span(7) == 0x100_0000_0000_0000,
        span(8) == 0x1_0000_0000_0000_0000,
{
    reveal_with_fuel(pow, 9);
}

/// `le_bytes` yields exactly `width` bytes.
pub proof fn lemma_le_bytes_len(value: nat, width: nat)
    ensures
        le_bytes(value, width).len() == width,
    decreases width,
{
    if width > 0 {
        lemma_le_bytes_len(value / 256, (width - 1) as nat);
    }
}

/// Byte `i` of the little-endian form is the `i`-th base-256 digit.
pub proof fn lemma_le_bytes_index(value: nat, width: nat, i: nat)
    requires
        i < width,
    ensures
        le_bytes(value, width).len() == width,
        le_bytes(value, width)[i as int] == ((value / span(i)) % 256) as u8,
    decreases width,
{
    lemma_le_bytes_len(value, width);
    lemma_le_bytes_len(value / 256, (width - 1) as nat);
    reveal_with_fuel(pow, 2);
    let first = seq![(value % 256) as u8];
    let rest = le_bytes(value / 256, (width - 1) as nat);
    assert(le_bytes(value, width) == first + rest);
    if i == 0 {
        assert(span(0) == 1);
        assert((first + rest)[0] == first[0]);
    } else {
        lemma_le_bytes_index(value / 256, (width - 1) as nat, (i - 1) as nat);
        let p = span((i - 1) as nat);
        vstd::arithmetic::power::lemma_pow_positive(256, (i - 1) as nat);
        assert(span(i) == 256 * p);
        assert((value / 256) / p == value / (256 * p)) by {
            vstd::arithmetic::div_mod::lemma_div_denominator(value as int, 256, p as int);
        }
        assert((first + rest)[i as int] == rest[i - 1]);
    }
}

/// Reading back the little-endian form of a value that fits gives the value.
pub proof fn lemma_le_round_trip(value: nat, width: nat)
    requires
        value < span(width),
    ensures
        le_value(le_bytes(value, width)) == value,
    decreases width,
{
    reveal_with_fuel(pow, 2);
    if width == 0 {
    } else {
        let rest = le_bytes(value / 256, (width - 1) as nat);
        let all = le_bytes(value, width);
        assert(all.drop_first() =~= rest);
        vstd::arithmetic::power::lemma_pow_positive(256, (width - 1) as nat);
        assert(span(width) == 256 * span((width - 1) as nat));
        assert(value / 256 < span((width - 1) as nat));
        lemma_le_round_trip(value / 256, (width - 1) as nat);
    }
}

/// An unsigned integer type that the bus can load and store.
pub trait Scalar: Sized + Copy {
    /// The number of bytes that a value occupies in memory.
    spec fn width() -> nat;

    /// The value as a natural number.
    spec fn to_nat(self) -> nat;

    /// The scalar that denotes `value`.
    spec fn from_nat(value: nat) -> Self;

    /// The width is the size of the type, and one of 1, 2, 4 and 8.
    proof fn lemma_width()
        ensures
            Self::width() == size_of::<Self>(),
            Self::width() == 1 || Self::width() == 2 || Self::width() == 4 || Self::width() == 8,
    ;

    /// A scalar's number fits its width and denotes the scalar.
    proof fn lemma_to_nat(self)
        ensures
            self.to_nat() < span(Self::width()),
            Self::from_nat(self.to_nat()) == self,
    ;

    /// Widens the scalar to 64 bits.
    fn to_u64(self) -> (v: u64)
        ensures
            v == self.to_nat(),
    ;

    /// Narrows a 64-bit number that fits the scalar.
    fn from_u64(v: u64) -> (s: Self)
        requires
            v < span(Self::width()),
        ensures
            s == Self::from_nat(v as nat),
    ;
}

impl Scalar for u8 {
    open spec fn width() -> nat {
        1
    }

    open spec fn to_nat(self) -> nat {
        self as nat
    }

    open spec fn from_nat(value: nat) -> Self {
        value as u8
    }

    proof fn lemma_width() {
    }

    proof fn lemma_to_nat(self) {
        lemma_span_values();
    }

    fn to_u64(self) -> (v: u64) {
        self as u64
    }

    fn from_u64(v: u64) -> (s: Self) {
        proof {
            lemma_span_values();
        }
        v as u8
    }
}

impl Scalar for u16 {
    open spec fn width() -> nat {
        2
    }

    open spec fn to_nat(self) -> nat {
        self as nat
    }

    open spec fn from_nat(value: nat) -> Self {
        value as u16
    }

    proof fn lemma_width() {
    }

    proof fn lemma_to_nat(self) {
        lemma_span_values();
    }

    fn to_u64(self) -> (v: u64) {
        self as u64
    }

    fn from_u64(v: u64) -> (s: Self) {
        proof {
            lemma_span_values();
        }
        v as u16
    }
}

impl Scalar for u32 {
    open spec fn width() -> nat {
        4
    }

    open spec fn to_nat(self) -> nat {
        self as nat
    }

    open spec fn from_nat(value: nat) -> Self {
        value as u32
    }

    proof fn lemma_width() {
    }

    proof fn lemma_to_nat(self) {
        lemma_span_values();
    }

    fn to_u64(self) -> (v: u64) {
        self as u64
    }

    fn from_u64(v: u64) -> (s: Self) {
        proof {
            lemma_span_values();
        }
        v as u32
    }
}

impl Scalar for u64 {
    open spec fn width() -> nat {
        8
    }

    open spec fn to_nat(self) -> nat {
        self as nat
    }

    open spec fn from_nat(value: nat) -> Self {
        value as u64
    }

    proof fn lemma_width() {
    }

    proof fn lemma_to_nat(self) {
        lemma_span_values();
    }

    fn to_u64(self) -> (v: u64) {
        self
    }

    fn from_u64(v: u64) -> (s: Self) {
        v
    }
}

impl Scalar for usize {
    open spec fn width() -> nat {
        (usize::BITS / 8) as nat
    }

    open spec fn to_nat(self) -> nat {
        self as nat
    }

    open spec fn from_nat(value: nat) -> Self {
        value as usize
    }

    proof fn lemma_width() {
    }

    proof fn lemma_to_nat(self) {
        lemma_span_values();
    }

    fn to_u64(self) -> (v: u64) {
        self as u64
    }

    fn from_u64(v: u64) -> (s: Self) {
        proof {
            lemma_span_values();
        }
        v as usize
    }
}

} // verus!
