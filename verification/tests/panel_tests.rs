use hookcore::game::vgui2;
use hookcore::hook::panel::{Error, Hook};
use hookcore::memory;

fn table() -> Vec<usize> {
    (0..vgui2::NUM_VTABLE_ENTRIES).map(|i| 0xCC00 + i).collect()
}

#[test]
fn panel_hook_swaps_the_pointer_and_tears_down_in_order() {
    let table = table();
    let mut pointer: usize = 0x5000_0000;

    let mut hook = Hook::new(0x4100_0000, &mut pointer, &table, 0x6000_0000, 0x7000_0000)
        .unwrap_or_else(|_| panic!("installation should succeed"));

    assert_eq!(pointer, 0x7000_0000);

    // The clone holds the replacement at the paint-traversal ordinal and the
    // original everywhere else.
    let clone = hook.cloned_table();
    assert_eq!(clone[41], 0x6000_0000);
    assert_eq!(clone[40], 0xCC00 + 40);
    assert_eq!(clone[42], 0xCC00 + 42);
    assert_eq!(clone.len(), vgui2::NUM_VTABLE_ENTRIES);

    // Pointer restore strictly precedes the release of the clone.
    hook.teardown(&mut pointer);
    assert_eq!(pointer, 0x5000_0000);
    assert_eq!(hook.release(), vgui2::NUM_VTABLE_ENTRIES);
}

#[test]
fn panel_hook_names_the_interface_on_a_null_table_pointer() {
    let table = table();
    let mut pointer: usize = 0;

    let err = match Hook::new(0x4100_0000, &mut pointer, &table, 0x6000_0000, 0x7000_0000) {
        Err(e) => e,
        Ok(_) => panic!("expected installation to fail"),
    };
    match err {
        Error::NullVtable(name) => assert_eq!(name, "VGUI_Panel007"),
        _ => panic!("expected the null table pointer to be rejected"),
    }
    assert_eq!(pointer, 0);
}

#[test]
fn panel_hook_rejects_a_bad_panel_address_without_writing() {
    let table = table();
    let mut pointer: usize = 0x5000_0000;

    let err = match Hook::new(0x4100_0001, &mut pointer, &table, 0x6000_0000, 0x7000_0000) {
        Err(e) => e,
        Ok(_) => panic!("expected installation to fail"),
    };
    match err {
        Error::Patch(memory::Error::UnalignedPointer {
            address,
            required_alignment,
            num_bytes_needed_to_align_ptr,
        }) => {
            assert_eq!(address, 0x4100_0001);
            assert_eq!(required_alignment, 4);
            assert_eq!(num_bytes_needed_to_align_ptr, 3);
        }
        _ => panic!("expected the panel address to be rejected"),
    }
    assert_eq!(pointer, 0x5000_0000);
}
