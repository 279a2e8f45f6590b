use rvvm::OperationError;

#[test]
fn fault_messages() {
    assert_eq!(
        OperationError::StoreAddressFault(0x1fff).message(),
        "store address fault from `0x1FFF`"
    );
    assert_eq!(
        OperationError::LoadAddressFault(0xabc).message(),
        "load  address fault from `0xABC`"
    );
    assert_eq!(
        OperationError::UnalignedAccess(1).message(),
        "load or store address unaligned from `0x1`"
    );
    assert_eq!(
        OperationError::AddressOutOfRange(0).message(),
        "address `0x0` out of range"
    );
    assert_eq!(
        OperationError::IllegalInstruction(0xffff_ffff, 4094).message(),
        "illegal instruction `0xFFFFFFFF` from address `0xFFE`"
    );
    assert_eq!(OperationError::Unknown.message(), "unknown data error");
}

#[test]
fn fault_messages_match_the_hex_format() {
    for addr in [0usize, 9, 10, 15, 16, 255, 256, 0xdead_beef, usize::MAX] {
        assert_eq!(
            OperationError::AddressOutOfRange(addr).message(),
            format!("address `{:#X}` out of range", addr)
        );
    }
}
