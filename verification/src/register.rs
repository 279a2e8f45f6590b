//! The register file and the symbolic names of its registers.

use vstd::prelude::*;
use vstd::std_specs::convert::{FromSpecImpl, IntoSpec};

verus! {

/// A file of `N` registers that each hold a `T`.
#[derive(Debug, Clone, Copy, PartialEq, Eq, PartialOrd, Ord)]
pub struct Register<T: Sized, const N: usize>([T; N]);

impl<T: Sized, const N: usize> View for Register<T, N> {
    type V = Seq<T>;

    closed spec fn view(&self) -> Seq<T> {
        self.0@
    }
}

impl<T: Sized, const N: usize> Register<T, N> {
    /// The file has `N` registers.
    pub proof fn lemma_len(self)
        ensures
            self@.len() == N,
    {
    }
}

impl<T: Sized + Default + Copy, const N: usize> Register<T, N> {
    /// A file in which every register holds the default value of `T`.
    pub fn new() -> (r: Self)
        ensures
            r@.len() == N,
            forall|i: int| 0 <= i < N ==> call_ensures(T::default, (), #[trigger] r@[i]),
    {
        Self([T::default();N])
    }

    /// The value of register `r`.
    pub fn get<R: Into<usize>>(&self, r: R) -> (value: T)
        requires
            R::obeys_into_spec(),
            r.into_spec() < N,
        ensures
            value == self@[r.into_spec() as int],
    {
        self.0[r.into()]
    }

    /// Sets register `r` to `value` and leaves the others as they are.
    pub fn set<R: Into<usize>>(&mut self, r: R, value: T)
        requires
            R::obeys_into_spec(),
            r.into_spec() < N,
        ensures
            final(self)@ == old(self)@.update(r.into_spec() as int, value),
    {
        self.0[r.into()] = value
    }
}

/// The names of the 32 general-purpose registers, in register order.
#[allow(non_camel_case_types)]
#[derive(Debug, Clone, Copy, PartialEq, Eq, PartialOrd, Ord, Structural)]
pub enum Generic {
    zero,
    ra,
    sp,
    gp,
    tp,
    t0,
    t1,
    t2,
    s0,
    s1,
    a0,
    a1,
    a2,
    a3,
    a4,
    a5,
    a6,
    a7,
    s2,
    s3,
    s4,
    s5,
    s6,
    s7,
    s8,
    s9,
    s10,
    s11,
    t3,
    t4,
    t5,
    t6,
}

impl Generic {
    /// The number of the register: its position in the file.
    pub open spec fn index(self) -> nat {
        match self {
            Generic::zero => 0,
            Generic::ra => 1,
            Generic::sp => 2,
            Generic::gp => 3,
            Generic::tp => 4,
            Generic::t0 => 5,
            Generic::t1 => 6,
            Generic::t2 => 7,
            Generic::s0 => 8,
            Generic::s1 => 9,
            Generic::a0 => 10,
            Generic::a1 => 11,
            Generic::a2 => 12,
            Generic::a3 => 13,
            Generic::a4 => 14,
            Generic::a5 => 15,
            Generic::a6 => 16,
            Generic::a7 => 17,
            Generic::s2 => 18,
            Generic::s3 => 19,
            Generic::s4 => 20,
            Generic::s5 => 21,
            Generic::s6 => 22,
            Generic::s7 => 23,
            Generic::s8 => 24,
            Generic::s9 => 25,
            Generic::s10 => 26,
            Generic::s11 => 27,
            Generic::t3 => 28,
            Generic::t4 => 29,
            Generic::t5 => 30,
            Generic::t6 => 31,
        }
    }

    /// The name of register number `bits`; there is none from 32 on.
    pub fn from_value(bits: u8) -> (r: Option<Generic>)
        ensures
            match r {
                Some(name) => name.index() == bits,
                None => bits >= 32,
            },
    {
        match bits {
            0 => Some(Generic::zero),
            1 => Some(Generic::ra),
            2 => Some(Generic::sp),
            3 => Some(Generic::gp),
            4 => Some(Generic::tp),
            5 => Some(Generic::t0),
            6 => Some(Generic::t1),
            7 => Some(Generic::t2),
            8 => Some(Generic::s0),
            9 => Some(Generic::s1),
            10 => Some(Generic::a0),
            11 => Some(Generic::a1),
            12 => Some(Generic::a2),
            13 => Some(Generic::a3),
            14 => Some(Generic::a4),
            15 => Some(Generic::a5),
            16 => Some(Generic::a6),
            17 => Some(Generic::a7),
            18 => Some(Generic::s2),
            19 => Some(Generic::s3),
            20 => Some(Generic::s4),
            21 => Some(Generic::s5),
            22 => Some(Generic::s6),
            23 => Some(Generic::s7),
            24 => Some(Generic::s8),
            25 => Some(Generic::s9),
            26 => Some(Generic::s10),
            27 => Some(Generic::s11),
            28 => Some(Generic::t3),
            29 => Some(Generic::t4),
            30 => Some(Generic::t5),
            31 => Some(Generic::t6),
            _ => None,
        }
    }

    /// The number of the register.
    pub fn into_value(self) -> (bits: u8)
        ensures
            bits == self.index(),
    {
        match self {
            Generic::zero => 0,
            Generic::ra => 1,
            Generic::sp => 2,
            Generic::gp => 3,
            Generic::tp => 4,
            Generic::t0 => 5,
            Generic::t1 => 6,
            Generic::t2 => 7,
            Generic::s0 => 8,
            Generic::s1 => 9,
            Generic::a0 => 10,
            Generic::a1 => 11,
            Generic::a2 => 12,
            Generic::a3 => 13,
            Generic::a4 => 14,
            Generic::a5 => 15,
            Generic::a6 => 16,
            Generic::a7 => 17,
            Generic::s2 => 18,
            Generic::s3 => 19,
            Generic::s4 => 20,
            Generic::s5 => 21,
            Generic::s6 => 22,
            Generic::s7 => 23,
            Generic::s8 => 24,
            Generic::s9 => 25,
            Generic::s10 => 26,
            Generic::s11 => 27,
            Generic::t3 => 28,
            Generic::t4 => 29,
            Generic::t5 => 30,
            Generic::t6 => 31,
        }
    }

    /// Register numbers are below 32, and no two registers share one.
    pub proof fn lemma_index(self, other: Generic)
        ensures
            self.index() < 32,
            self.index() == other.index() ==> self == other,
    {
    }
}

impl From<Generic> for u8 {
    fn from(value: Generic) -> (bits: u8) {
        value.into_value()
    }
}

impl FromSpecImpl<Generic> for u8 {
    open spec fn obeys_from_spec() -> bool {
        true
    }

    open spec fn from_spec(value: Generic) -> u8 {
        value.index() as u8
    }
}

impl From<Generic> for usize {
    fn from(value: Generic) -> (bits: usize) {
        value.into_value() as usize
    }
}

impl FromSpecImpl<Generic> for usize {
    open spec fn obeys_from_spec() -> bool {
        true
    }

    open spec fn from_spec(value: Generic) -> usize {
        value.index() as usize
    }
}

/// The names of the 32 floating-point registers, in register order.
#[allow(non_camel_case_types)]
#[derive(Debug, Clone, Copy, PartialEq, Eq, PartialOrd, Ord, Structural)]
pub enum Fcsr {
    F0,
    F1,
    F2,
    F3,
    F4,
    F5,
    F6,
    F7,
    F8,
    F9,
    F10,
    F11,
    F12,
    F13,
    F14,
    F15,
    F16,
    F17,
    F18,
    F19,
    F20,
    F21,
    F22,
    F23,
    F24,
    F25,
    F26,
    F27,
    F28,
    F29,
    F30,
    F31,
}

impl Fcsr {
    /// The number of the register: its position in the file.
    pub open spec fn index(self) -> nat {
        match self {
            Fcsr::F0 => 0,
            Fcsr::F1 => 1,
            Fcsr::F2 => 2,
            Fcsr::F3 => 3,
            Fcsr::F4 => 4,
            Fcsr::F5 => 5,
            Fcsr::F6 => 6,
            Fcsr::F7 => 7,
            Fcsr::F8 => 8,
            Fcsr::F9 => 9,
            Fcsr::F10 => 10,
            Fcsr::F11 => 11,
            Fcsr::F12 => 12,
            Fcsr::F13 => 13,
            Fcsr::F14 => 14,
            Fcsr::F15 => 15,
            Fcsr::F16 => 16,
            Fcsr::F17 => 17,
            Fcsr::F18 => 18,
            Fcsr::F19 => 19,
            Fcsr::F20 => 20,
            Fcsr::F21 => 21,
            Fcsr::F22 => 22,
            Fcsr::F23 => 23,
            Fcsr::F24 => 24,
            Fcsr::F25 => 25,
            Fcsr::F26 => 26,
            Fcsr::F27 => 27,
            Fcsr::F28 => 28,
            Fcsr::F29 => 29,
            Fcsr::F30 => 30,
            Fcsr::F31 => 31,
        }
    }

    /// The name of register number `bits`; there is none from 32 on.
    pub fn from_value(bits: u8) -> (r: Option<Fcsr>)
        ensures
            match r {
                Some(name) => name.index() == bits,
                None => bits >= 32,
            },
    {
        match bits {
            0 => Some(Fcsr::F0),
            1 => Some(Fcsr::F1),
            2 => Some(Fcsr::F2),
            3 => Some(Fcsr::F3),
            4 => Some(Fcsr::F4),
            5 => Some(Fcsr::F5),
            6 => Some(Fcsr::F6),
            7 => Some(Fcsr::F7),
            8 => Some(Fcsr::F8),
            9 => Some(Fcsr::F9),
            10 => Some(Fcsr::F10),
            11 => Some(Fcsr::F11),
            12 => Some(Fcsr::F12),
            13 => Some(Fcsr::F13),
            14 => Some(Fcsr::F14),
            15 => Some(Fcsr::F15),
            16 => Some(Fcsr::F16),
            17 => Some(Fcsr::F17),
            18 => Some(Fcsr::F18),
            19 => Some(Fcsr::F19),
            20 => Some(Fcsr::F20),
            21 => Some(Fcsr::F21),
            22 => Some(Fcsr::F22),
            23 => Some(Fcsr::F23),
            24 => Some(Fcsr::F24),
            25 => Some(Fcsr::F25),
            26 => Some(Fcsr::F26),
            27 => Some(Fcsr::F27),
            28 => Some(Fcsr::F28),
            29 => Some(Fcsr::F29),
            30 => Some(Fcsr::F30),
            31 => Some(Fcsr::F31),
            _ => None,
        }
    }

    /// The number of the register.
    pub fn into_value(self) -> (bits: u8)
        ensures
            bits == self.index(),
    {
        match self {
            Fcsr::F0 => 0,
            Fcsr::F1 => 1,
            Fcsr::F2 => 2,
            Fcsr::F3 => 3,
            Fcsr::F4 => 4,
            Fcsr::F5 => 5,
            Fcsr::F6 => 6,
            Fcsr::F7 => 7,
            Fcsr::F8 => 8,
            Fcsr::F9 => 9,
            Fcsr::F10 => 10,
            Fcsr::F11 => 11,
            Fcsr::F12 => 12,
            Fcsr::F13 => 13,
            Fcsr::F14 => 14,
            Fcsr::F15 => 15,
            Fcsr::F16 => 16,
            Fcsr::F17 => 17,
            Fcsr::F18 => 18,
            Fcsr::F19 => 19,
            Fcsr::F20 => 20,
            Fcsr::F21 => 21,
            Fcsr::F22 => 22,
            Fcsr::F23 => 23,
            Fcsr::F24 => 24,
            Fcsr::F25 => 25,
            Fcsr::F26 => 26,
            Fcsr::F27 => 27,
            Fcsr::F28 => 28,
            Fcsr::F29 => 29,
            Fcsr::F30 => 30,
            Fcsr::F31 => 31,
        }
    }

    /// Register numbers are below 32, and no two registers share one.
    pub proof fn lemma_index(self, other: Fcsr)
        ensures
            self.index() < 32,
            self.index() == other.index() ==> self == other,
    {
    }
}

impl From<Fcsr> for u8 {
    fn from(value: Fcsr) -> (bits: u8) {
        value.into_value()
    }
}

impl FromSpecImpl<Fcsr> for u8 {
    open spec fn obeys_from_spec() -> bool {
        true
    }

    open spec fn from_spec(value: Fcsr) -> u8 {
        value.index() as u8
    }
}

impl From<Fcsr> for usize {
    fn from(value: Fcsr) -> (bits: usize) {
        value.into_value() as usize
    }
}

impl FromSpecImpl<Fcsr> for usize {
    open spec fn obeys_from_spec() -> bool {
        true
    }

    open spec fn from_spec(value: Fcsr) -> usize {
        value.index() as usize
    }
}

} // verus!
