use rvvm::{Cpu, Fcsr, Generic, Memory, Register};

#[test]
fn a_new_register_file_holds_defaults() {
    let file: Register<isize, 32> = Register::new();
    for r in 0usize..32 {
        assert_eq!(file.get(r), 0);
    }
}

#[test]
fn register_set_changes_one_register() {
    let mut file: Register<u64, 4> = Register::new();
    file.set(2usize, 77);
    assert_eq!(file.get(0usize), 0);
    assert_eq!(file.get(1usize), 0);
    assert_eq!(file.get(2usize), 77);
    assert_eq!(file.get(3usize), 0);
    file.set(Generic::ra, 5);
    assert_eq!(file.get(Generic::ra), 5);
    assert_eq!(file.get(1usize), 5);
}

#[test]
fn generic_names_have_their_register_numbers() {
    assert_eq!(Generic::zero.into_value(), 0);
    assert_eq!(Generic::ra.into_value(), 1);
    assert_eq!(Generic::sp.into_value(), 2);
    assert_eq!(Generic::s0.into_value(), 8);
    assert_eq!(Generic::a0.into_value(), 10);
    assert_eq!(Generic::a7.into_value(), 17);
    assert_eq!(Generic::s2.into_value(), 18);
    assert_eq!(Generic::t3.into_value(), 28);
    assert_eq!(Generic::t6.into_value(), 31);
    assert_eq!(u8::from(Generic::a1), 11);
    assert_eq!(usize::from(Generic::s11), 27);
}

#[test]
fn generic_from_value_inverts_into_value() {
    for bits in 0u8..32 {
        let name = Generic::from_value(bits).unwrap();
        assert_eq!(name.into_value(), bits);
    }
    assert_eq!(Generic::from_value(0), Some(Generic::zero));
    assert_eq!(Generic::from_value(17), Some(Generic::a7));
    assert_eq!(Generic::from_value(32), None);
    assert_eq!(Generic::from_value(255), None);
}

#[test]
fn float_names_have_their_register_numbers() {
    assert_eq!(Fcsr::F0.into_value(), 0);
    assert_eq!(Fcsr::F16.into_value(), 16);
    assert_eq!(Fcsr::F31.into_value(), 31);
    assert_eq!(u8::from(Fcsr::F7), 7);
    assert_eq!(usize::from(Fcsr::F30), 30);
    for bits in 0u8..32 {
        assert_eq!(Fcsr::from_value(bits).unwrap().into_value(), bits);
    }
    assert_eq!(Fcsr::from_value(32), None);
}

#[test]
fn the_zero_register_always_reads_zero() {
    let mut cpu = Cpu::new(Memory::new(0..=0xff));
    assert_eq!(cpu.get_generic(Generic::zero), 0);
    cpu.set_generic(Generic::zero, 42);
    assert_eq!(cpu.get_generic(Generic::zero), 0);
    cpu.set_generic(Generic::zero, -1);
    assert_eq!(cpu.get_generic(Generic::zero), 0);
    cpu.set_generic(Generic::zero, isize::MIN);
    assert_eq!(cpu.get_generic(Generic::zero), 0);
}

#[test]
fn general_registers_hold_what_was_written() {
    let mut cpu = Cpu::new(Memory::new(0..=0xff));
    for bits in 1u8..32 {
        let name = Generic::from_value(bits).unwrap();
        assert_eq!(cpu.get_generic(name), 0);
        cpu.set_generic(name, 100 + bits as isize);
    }
    for bits in 1u8..32 {
        let name = Generic::from_value(bits).unwrap();
        assert_eq!(cpu.get_generic(name), 100 + bits as isize);
    }
    assert_eq!(cpu.get_generic(Generic::zero), 0);
}

#[test]
fn float_registers_have_no_special_case() {
    let mut cpu = Cpu::new(Memory::new(0..=0xff));
    assert_eq!(cpu.get_float(Fcsr::F0), 0);
    cpu.set_float(Fcsr::F0, 9);
    cpu.set_float(Fcsr::F31, -3);
    assert_eq!(cpu.get_float(Fcsr::F0), 9);
    assert_eq!(cpu.get_float(Fcsr::F31), -3);
    assert_eq!(cpu.get_float(Fcsr::F1), 0);
    assert_eq!(cpu.get_generic(Generic::ra), 0);
}

#[test]
fn register_names_are_ordered_by_number() {
    assert!(Generic::zero < Generic::ra);
    assert!(Generic::a7 < Generic::s2);
    assert!(Generic::t6 > Generic::t5);
    assert_eq!(Generic::a0.max(Generic::s1), Generic::a0);
    assert!(Fcsr::F0 < Fcsr::F1);
    assert!(Fcsr::F16 < Fcsr::F31);
    for bits in 0u8..31 {
        assert!(Generic::from_value(bits).unwrap() < Generic::from_value(bits + 1).unwrap());
        assert!(Fcsr::from_value(bits).unwrap() < Fcsr::from_value(bits + 1).unwrap());
    }
}

#[test]
fn register_files_compare_by_their_contents() {
    let mut one: Register<isize, 32> = Register::new();
    let mut other: Register<isize, 32> = Register::new();
    assert_eq!(one, other);
    one.set(Generic::a0, 3);
    assert_ne!(one, other);
    assert!(other < one);
    other.set(Generic::a0, 3);
    assert_eq!(one, other);
    other.set(Generic::ra, 1);
    assert!(one < other);
}
