use rvvm::{Bus, BusOperation, Memory, OperationError};

fn load_u8(mem: &Memory, addr: usize) -> Result<u8, OperationError> {
    mem.load(addr)
}

fn load_u16(mem: &Memory, addr: usize) -> Result<u16, OperationError> {
    mem.load(addr)
}

fn load_u32(mem: &Memory, addr: usize) -> Result<u32, OperationError> {
    mem.load(addr)
}

fn load_u64(mem: &Memory, addr: usize) -> Result<u64, OperationError> {
    mem.load(addr)
}

fn load_word(mem: &Memory, addr: usize) -> Result<usize, OperationError> {
    mem.load(addr)
}

#[test]
fn new_memory_is_zero_filled_and_keeps_its_range() {
    let mem = Memory::new(0x1000..=0x100f);
    assert_eq!(mem.address_range(), &(0x1000..=0x100f));
    for addr in 0x1000..=0x100f {
        assert_eq!(load_u8(&mem, addr), Ok(0));
    }
    assert_eq!(mem.read_bytes(0x1000, 15), Ok(&[0u8; 15][..]));
}

#[test]
fn store_then_load_returns_the_value_at_every_width() {
    let mut mem = Memory::new(0x1000..=0x1fff);
    assert_eq!(mem.store(0x1001, 0xabu8), Ok(()));
    assert_eq!(load_u8(&mem, 0x1001), Ok(0xab));
    assert_eq!(mem.store(0x1002, 0xbeefu16), Ok(()));
    assert_eq!(load_u16(&mem, 0x1002), Ok(0xbeef));
    assert_eq!(mem.store(0x1004, 0xdead_beefu32), Ok(()));
    assert_eq!(load_u32(&mem, 0x1004), Ok(0xdead_beef));
    assert_eq!(mem.store(0x1008, 0x1122_3344_5566_7788u64), Ok(()));
    assert_eq!(load_u64(&mem, 0x1008), Ok(0x1122_3344_5566_7788));
    assert_eq!(mem.store(0x1010, 0x1234_5678usize), Ok(()));
    assert_eq!(load_word(&mem, 0x1010), Ok(0x1234_5678));
}

#[test]
fn scalars_are_little_endian() {
    let mut mem = Memory::new(0..=0xff);
    assert_eq!(mem.store(8, 0x1122_3344_5566_7788u64), Ok(()));
    assert_eq!(
        mem.read_bytes(8, 8),
        Ok(&[0x88u8, 0x77, 0x66, 0x55, 0x44, 0x33, 0x22, 0x11][..])
    );
    assert_eq!(load_u8(&mem, 8), Ok(0x88));
    assert_eq!(load_u16(&mem, 10), Ok(0x5566));
    assert_eq!(load_u32(&mem, 12), Ok(0x1122_3344));
    assert_eq!(mem.write_bytes(0x20, &[0x01, 0x02, 0x03, 0x04]), Ok(()));
    assert_eq!(load_u32(&mem, 0x20), Ok(0x0403_0201));
}

#[test]
fn a_store_changes_only_its_own_bytes() {
    let mut mem = Memory::new(0..=0xf);
    assert_eq!(mem.write_bytes(0, &[0xff; 15]), Ok(()));
    assert_eq!(mem.store(4, 0x0102u16), Ok(()));
    assert_eq!(
        mem.read_bytes(0, 15),
        Ok(&[0xffu8, 0xff, 0xff, 0xff, 0x02, 0x01, 0xff, 0xff, 0xff, 0xff, 0xff, 0xff, 0xff, 0xff, 0xff][..])
    );
}

#[test]
fn unaligned_access_is_refused_and_writes_nothing() {
    let mut mem = Memory::new(0x1000..=0x1fff);
    assert_eq!(load_u16(&mem, 0x1001), Err(OperationError::UnalignedAccess(0x1001)));
    assert_eq!(load_u32(&mem, 0x1002), Err(OperationError::UnalignedAccess(0x1002)));
    assert_eq!(load_u64(&mem, 0x1004), Err(OperationError::UnalignedAccess(0x1004)));
    assert_eq!(
        mem.store(0x1003, 0xffff_ffffu32),
        Err(OperationError::UnalignedAccess(0x1003))
    );
    assert_eq!(mem.read_bytes(0x1000, 8), Ok(&[0u8; 8][..]));
}

#[test]
fn alignment_is_checked_before_bounds() {
    let mut mem = Memory::new(0x1000..=0x1fff);
    assert_eq!(load_u32(&mem, 0x2001), Err(OperationError::UnalignedAccess(0x2001)));
    assert_eq!(load_u16(&mem, 0xfff), Err(OperationError::UnalignedAccess(0xfff)));
    assert_eq!(mem.store(0x3002, 1u64), Err(OperationError::UnalignedAccess(0x3002)));
}

#[test]
fn access_outside_the_range_is_an_address_fault() {
    let mut mem = Memory::new(0x1000..=0x1fff);
    assert_eq!(load_u8(&mem, 0xfff), Err(OperationError::LoadAddressFault(0xfff)));
    assert_eq!(load_u8(&mem, 0x2000), Err(OperationError::LoadAddressFault(0x2000)));
    assert_eq!(load_u32(&mem, 0x2000), Err(OperationError::LoadAddressFault(0x2000)));
    assert_eq!(load_u64(&mem, 0xff8), Err(OperationError::LoadAddressFault(0xff8)));
    assert_eq!(mem.store(0xffe, 1u16), Err(OperationError::StoreAddressFault(0xffe)));
    assert_eq!(mem.store(0x2000, 1u8), Err(OperationError::StoreAddressFault(0x2000)));
    assert_eq!(load_u8(&mem, 0x1fff), Ok(0));
    assert_eq!(load_u64(&mem, 0x1ff8), Ok(0));
}

#[test]
fn an_access_that_straddles_the_end_is_an_address_fault() {
    let mut mem = Memory::new(0x1000..=0x1ffd);
    assert_eq!(load_u16(&mem, 0x1ffc), Ok(0));
    assert_eq!(load_u32(&mem, 0x1ffc), Err(OperationError::LoadAddressFault(0x1ffc)));
    assert_eq!(load_u64(&mem, 0x1ff8), Err(OperationError::LoadAddressFault(0x1ff8)));
    assert_eq!(
        mem.store(0x1ffc, 0xffff_ffffu32),
        Err(OperationError::StoreAddressFault(0x1ffc))
    );
    assert_eq!(load_u16(&mem, 0x1ffc), Ok(0));
}

#[test]
fn the_last_word_of_the_address_space_does_not_overflow() {
    let top = usize::MAX - 7;
    let mut mem = Memory::new(top..=usize::MAX);
    assert_eq!(mem.store(top, 0x0102_0304_0506_0708u64), Ok(()));
    assert_eq!(load_u64(&mem, top), Ok(0x0102_0304_0506_0708));
    assert_eq!(load_u8(&mem, usize::MAX), Ok(0x01));
    assert_eq!(
        mem.read_bytes(top, 8),
        Err(OperationError::LoadAddressFault(top.wrapping_add(8)))
    );
}

#[test]
fn get_address_translates_to_an_offset() {
    let mem = Memory::new(0x1000..=0x1fff);
    assert_eq!(mem.get_address(0x1000), Ok(0));
    assert_eq!(mem.get_address(0x1234), Ok(0x234));
    assert_eq!(mem.get_address(0x1fff), Ok(0xfff));
    assert_eq!(mem.get_address(0xfff), Err(OperationError::AddressOutOfRange(0xfff)));
    assert_eq!(mem.get_address(0x2000), Err(OperationError::AddressOutOfRange(0x2000)));
}

#[test]
fn read_bytes_faults_carry_the_address_that_failed() {
    let mem = Memory::new(0x1000..=0x1fff);
    assert_eq!(mem.read_bytes(0xfff, 4), Err(OperationError::LoadAddressFault(0xfff)));
    assert_eq!(mem.read_bytes(0x1ffe, 2), Err(OperationError::LoadAddressFault(0x2000)));
    assert_eq!(mem.read_bytes(0x1ffe, 1), Ok(&[0u8][..]));
    assert_eq!(mem.read_bytes(0x1fff, 0), Ok(&[][..]));
    assert_eq!(
        mem.read_bytes(0x1000, usize::MAX),
        Err(OperationError::LoadAddressFault(0xfff))
    );
}

#[test]
fn write_bytes_faults_carry_the_address_that_failed() {
    let mut mem = Memory::new(0x1000..=0x1fff);
    assert_eq!(
        mem.write_bytes(0xfff, &[1, 2]),
        Err(OperationError::StoreAddressFault(0xfff))
    );
    assert_eq!(
        mem.write_bytes(0x1ffe, &[1, 2, 3]),
        Err(OperationError::StoreAddressFault(0x2001))
    );
    assert_eq!(mem.read_bytes(0x1ffe, 1), Ok(&[0u8][..]));
    assert_eq!(mem.write_bytes(0x1003, &[1, 2, 3]), Ok(()));
    assert_eq!(mem.read_bytes(0x1002, 5), Ok(&[0u8, 1, 2, 3, 0][..]));
}

#[test]
fn init_from_seeds_the_start_of_the_buffer() {
    let mut mem = Memory::new(0x1000..=0x100f);
    assert_eq!(mem.init_from(&[1, 2, 3, 4]), Ok(()));
    assert_eq!(mem.read_bytes(0x1000, 6), Ok(&[1u8, 2, 3, 4, 0, 0][..]));
}

#[test]
fn init_from_twice_gives_the_same_contents() {
    let mut once = Memory::new(0..=0x1f);
    assert_eq!(once.write_bytes(0, &[9; 16]), Ok(()));
    let mut twice = Memory::new(0..=0x1f);
    assert_eq!(twice.write_bytes(0, &[9; 16]), Ok(()));
    let image = [0x13u8, 0x05, 0x10, 0x00, 0x73];
    assert_eq!(once.init_from(&image), Ok(()));
    assert_eq!(twice.init_from(&image), Ok(()));
    assert_eq!(twice.init_from(&image), Ok(()));
    assert_eq!(once.read_bytes(0, 0x1f), twice.read_bytes(0, 0x1f));
    assert_eq!(once.read_bytes(0, 8), Ok(&[0x13u8, 0x05, 0x10, 0x00, 0x73, 9, 9, 9][..]));
}

#[test]
fn an_empty_range_holds_no_address() {
    #[allow(clippy::reversed_empty_ranges)]
    let mem = Memory::new(5..=4);
    assert_eq!(load_u8(&mem, 4), Err(OperationError::LoadAddressFault(4)));
    assert_eq!(load_u8(&mem, 5), Err(OperationError::LoadAddressFault(5)));
    assert_eq!(mem.get_address(5), Err(OperationError::AddressOutOfRange(5)));
}

#[test]
fn an_exhausted_range_holds_no_address() {
    let mut range = 3usize..=5;
    for _ in range.by_ref() {}
    let mem = Memory::new(range);
    assert_eq!(load_u8(&mem, 3), Err(OperationError::LoadAddressFault(3)));
    assert_eq!(load_u8(&mem, 5), Err(OperationError::LoadAddressFault(5)));
}

#[test]
fn memory_has_one_byte_for_each_address() {
    let mem = Memory::new(0x10..=0x1f);
    let range = mem.address_range().clone();
    let mut count = 0;
    for addr in range {
        assert_eq!(mem.get_address(addr), Ok(addr - 0x10));
        assert_eq!(load_u8(&mem, addr), Ok(0));
        count += 1;
    }
    assert_eq!(count, 16);
    assert_eq!(load_u8(&mem, 0x20), Err(OperationError::LoadAddressFault(0x20)));
}
