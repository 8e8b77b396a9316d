use capability::{CapaError, UntypedCapa, FRAME_SIZE_EXPONENT};

#[test]
fn lib_allocate() {
    // Simple allocation.
    let mut ut = UntypedCapa::new(0x1000, 12); // 4 KiB region
    let addr = ut.allocate(64, 0).unwrap();
    assert_eq!(addr, 0x1000);
    assert_eq!(ut.watermark, 64);

    // Aligned allocation: 256-byte alignment bumps the watermark.
    let mut ut = UntypedCapa::new(0x1000, 12);
    ut.allocate(8, 0).unwrap();
    let addr = ut.allocate(64, 8).unwrap();
    assert_eq!(addr, 0x1100);

    // Multiple sequential allocations.
    let mut ut = UntypedCapa::new(0x1000, 12); // 4 KiB
    let a = ut.allocate(128, 0).unwrap();
    let b = ut.allocate(256, 0).unwrap();
    assert_eq!(a, 0x1000);
    assert_eq!(b, 0x1080);

    // Out of memory.
    let mut ut = UntypedCapa::new(0x1000, 12); // 4 KiB
    ut.allocate(2048, 0).unwrap();
    assert!(ut.allocate(4096, 0).is_err());

    // Out of memory due to alignment padding.
    let mut ut = UntypedCapa::new(0x1000, 12); // 4 KiB
    ut.allocate(1, 0).unwrap();
    assert!(ut.allocate(2048, 12).is_err());

    // Exact fit.
    let mut ut = UntypedCapa::new(0x1000, 12); // 4 KiB
    let addr = ut.allocate(4096, 0).unwrap();
    assert_eq!(addr, 0x1000);
    assert!(ut.allocate(1, 0).is_err());
}

#[test]
fn split() {
    // Splitting produces two children of half the size.
    let mut ut = UntypedCapa::new(0x4000, 14); // 16 KiB at 0x4000
    let (left, right) = ut.split().unwrap();
    assert_eq!(left.address, 0x4000);
    assert_eq!(right.address, 0x6000);
    assert_eq!(left.size, 13);
    assert_eq!(right.size, 13);

    // Cannot split twice.
    assert!(ut.split().is_err());

    // Cannot split after allocating.
    let mut ut = UntypedCapa::new(0x4000, 14);
    ut.allocate(64, 0).unwrap();
    assert!(ut.split().is_err());

    // Cannot split at minimum size (FRAME_SIZE_EXPONENT).
    let mut ut = UntypedCapa::new(0x1000, FRAME_SIZE_EXPONENT);
    assert!(ut.split().is_err());

    // Children can be split recursively.
    let mut ut = UntypedCapa::new(0x4000, 14);
    let (mut left, _right) = ut.split().unwrap();
    let (ll, lr) = left.split().unwrap();
    assert_eq!(ll.address, 0x4000);
    assert_eq!(lr.address, 0x5000);
    assert_eq!(ll.size, 12);
    assert_eq!(lr.size, 12);

    // Children can be allocated from.
    let mut ut = UntypedCapa::new(0x4000, 14);
    let (mut left, _right) = ut.split().unwrap();
    let addr = left.allocate(128, 0).unwrap();
    assert_eq!(addr, 0x4000);
}

#[test]
fn split_error_kinds() {
    // Splitting twice reports that the capability is already split.
    let mut ut = UntypedCapa::new(0x4000, 14);
    ut.split().unwrap();
    assert_eq!(ut.split().unwrap_err(), CapaError::UntypedAlreadySplit);

    // Splitting after allocating reports that objects are already allocated.
    let mut ut = UntypedCapa::new(0x4000, 14);
    ut.allocate(64, 0).unwrap();
    assert_eq!(ut.split().unwrap_err(), CapaError::UntypedAlreadyInUse);

    // Splitting a minimum-sized capability reports that it cannot shrink.
    let mut ut = UntypedCapa::new(0x1000, FRAME_SIZE_EXPONENT);
    assert_eq!(ut.split().unwrap_err(), CapaError::UntypedCantSplitFurther);

    // A split capability no longer allocates.
    let mut ut = UntypedCapa::new(0x4000, 14);
    ut.split().unwrap();
    assert_eq!(ut.allocate(64, 0).unwrap_err(), CapaError::UntypedAlreadySplit);

    // Running past the end of the region reports out of space.
    let mut ut = UntypedCapa::new(0x1000, 12);
    assert_eq!(ut.allocate(8192, 0).unwrap_err(), CapaError::UntypedOutOfSpace);
}

#[test]
fn error_messages() {
    assert_eq!(CapaError::CNodeInvalidIndex.message(), "invalid cnode index");
    assert_eq!(CapaError::CSpaceInvalidIndex.message(), "invalid cspace index");
    assert_eq!(CapaError::CspaceOutOfSpace.message(), "cspace is full");
    assert_eq!(
        CapaError::UntypedOutOfSpace.message(),
        "untyped memory doest have enough free space"
    );
    assert_eq!(
        CapaError::UntypedWrongMode.message(),
        "untyped memory is in allocation mode"
    );
}
