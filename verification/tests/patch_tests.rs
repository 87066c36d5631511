use hookcore::memory::{ptr_check, Error, Patch};

#[test]
fn patch_round_trip_u8() {
    let mut cell: u8 = 0x41;
    let mut patch = Patch::new(0x1000, 1, &mut cell, 0x90).unwrap();
    assert_eq!(cell, 0x90);
    assert_eq!(patch.old_value(), 0x41);
    patch.restore(&mut cell);
    assert_eq!(cell, 0x41);
}

#[test]
fn patch_round_trip_u16() {
    let mut cell: u16 = 0xBEEF;
    let mut patch = Patch::new(0x1000, 2, &mut cell, 0x1234).unwrap();
    assert_eq!(cell, 0x1234);
    patch.restore(&mut cell);
    assert_eq!(cell, 0xBEEF);
}

#[test]
fn patch_round_trip_u32() {
    let mut cell: u32 = 0xDEAD_BEEF;
    let mut patch = Patch::new(0x1000, 4, &mut cell, 0x0BAD_F00D).unwrap();
    assert_eq!(cell, 0x0BAD_F00D);
    patch.restore(&mut cell);
    assert_eq!(cell, 0xDEAD_BEEF);
}

#[test]
fn patch_round_trip_u64() {
    let mut cell: u64 = 0x0123_4567_89AB_CDEF;
    let mut patch = Patch::new(0x1000, 8, &mut cell, 7).unwrap();
    assert_eq!(cell, 7);
    patch.restore(&mut cell);
    assert_eq!(cell, 0x0123_4567_89AB_CDEF);
}

#[test]
fn patch_round_trip_pointer_width() {
    let mut cell: usize = 0x5000_0000;
    let mut patch = Patch::new(0x1000, 4, &mut cell, 0x7000_0000).unwrap();
    assert_eq!(cell, 0x7000_0000);
    assert_eq!(patch.old_value(), 0x5000_0000);
    patch.restore(&mut cell);
    assert_eq!(cell, 0x5000_0000);
}

#[test]
fn patch_rejects_null_without_writing() {
    let mut cell: u32 = 55;
    let err = match Patch::new(0, 4, &mut cell, 99) {
        Err(e) => e,
        Ok(_) => panic!("expected the null address to be rejected"),
    };
    assert_eq!(err, Error::NullPointer);
    assert_eq!(cell, 55);
}

#[test]
fn patch_rejects_misaligned_without_writing() {
    let mut cell: u32 = 55;
    let err = match Patch::new(0x1001, 4, &mut cell, 99) {
        Err(e) => e,
        Ok(_) => panic!("expected the misaligned address to be rejected"),
    };
    assert_eq!(
        err,
        Error::UnalignedPointer {
            address: 0x1001,
            required_alignment: 4,
            num_bytes_needed_to_align_ptr: 3,
        }
    );
    assert_eq!(cell, 55);
}

#[test]
fn ptr_check_accepts_aligned() {
    assert!(ptr_check(0x1000, 4).is_ok());
    assert!(ptr_check(0x1001, 1).is_ok());
    assert!(ptr_check(0x1002, 2).is_ok());
}

#[test]
fn ptr_check_rejects_null() {
    assert_eq!(ptr_check(0, 1).unwrap_err(), Error::NullPointer);
    assert_eq!(ptr_check(0, 8).unwrap_err(), Error::NullPointer);
}

#[test]
fn ptr_check_reports_realignment_distance() {
    let err = ptr_check(0x1007, 8).unwrap_err();
    assert_eq!(
        err,
        Error::UnalignedPointer {
            address: 0x1007,
            required_alignment: 8,
            num_bytes_needed_to_align_ptr: 1,
        }
    );
}

#[test]
fn error_describe_names_the_failure() {
    assert_eq!(Error::NullPointer.describe(), "null pointer");
    let err = ptr_check(0x1007, 8).unwrap_err();
    assert_eq!(err.describe(), "unaligned pointer");
}
