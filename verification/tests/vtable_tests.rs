use hookcore::game::client::{ClientFuncs, ClientFuncsTable, NUM_CLIENT_FUNCS};
use hookcore::table::{clone_table, FunctionTableHook};
use hookcore::vtable::{Error, VTableHook};

const F0: usize = 0x100;
const F1: usize = 0x200;
const F2: usize = 0x300;
const G: usize = 0x900;

#[test]
fn clone_is_independent_of_the_original() {
    let table = vec![F0, F1, F2];
    let mut clone = clone_table(&table);
    assert_eq!(clone, table);

    clone[1] = G;
    assert_eq!(table[1], F1);
    assert_eq!(clone, vec![F0, G, F2]);

    let mut table2 = table.clone();
    table2[1] = 0xAAA;
    assert_eq!(clone[1], G);
}

#[test]
fn hooking_an_ordinal_dispatches_the_replacement_and_forwards_to_its_original() {
    let table = vec![F0, F1, F2];
    let mut table_pointer: usize = 0x5000_0000;
    let overrides = vec![(1usize, G)];

    let hook = VTableHook::install(0x1000, &mut table_pointer, &table, &overrides, 0x6000_0000)
        .unwrap();

    // The object now dispatches through the clone.
    assert_eq!(table_pointer, 0x6000_0000);

    // Entry 1 of the swapped table invokes the replacement.
    assert_eq!(hook.entry(1), G);

    // Forwarding from the replacement reaches exactly the original entry 1.
    assert_eq!(hook.forward_target(1), Some(F1));
    assert_ne!(hook.forward_target(1), Some(F0));
    assert_ne!(hook.forward_target(1), Some(F2));

    // Unhooked ordinals keep their functions and have no forwarding entry.
    assert_eq!(hook.entry(0), F0);
    assert_eq!(hook.entry(2), F2);
    assert_eq!(hook.forward_target(0), None);
    assert_eq!(hook.forward_target(2), None);
}

#[test]
fn teardown_restores_the_pointer_before_release() {
    let table = vec![F0, F1, F2];
    let mut table_pointer: usize = 0x5000_0000;
    let overrides = vec![(1usize, G)];

    let mut hook =
        VTableHook::install(0x1000, &mut table_pointer, &table, &overrides, 0x6000_0000).unwrap();
    assert_eq!(table_pointer, 0x6000_0000);

    // Restore the pointer patch first: the object points back at the
    // original table while the clone is still allocated.
    hook.teardown(&mut table_pointer);
    assert_eq!(table_pointer, 0x5000_0000);

    // Only now may the clone be freed.
    assert_eq!(hook.release(), 3);
}

#[test]
fn install_rejects_a_null_table_pointer_without_writing() {
    let table = vec![F0, F1, F2];
    let mut table_pointer: usize = 0;

    let err = VTableHook::install(0x1000, &mut table_pointer, &table, &vec![(1, G)], 0x6000_0000)
        .unwrap_err();
    assert!(matches!(err, Error::NullVtable));
    assert_eq!(table_pointer, 0);
}

#[test]
fn install_rejects_a_bad_object_address_without_writing() {
    let table = vec![F0, F1, F2];
    let mut table_pointer: usize = 0x5000_0000;

    let err = VTableHook::install(0, &mut table_pointer, &table, &vec![(1, G)], 0x6000_0000)
        .unwrap_err();
    assert!(matches!(
        err,
        Error::Patch(hookcore::memory::Error::NullPointer)
    ));
    assert_eq!(table_pointer, 0x5000_0000);

    let err = VTableHook::install(0x1001, &mut table_pointer, &table, &vec![(1, G)], 0x6000_0000)
        .unwrap_err();
    assert!(matches!(
        err,
        Error::Patch(hookcore::memory::Error::UnalignedPointer { .. })
    ));
    assert_eq!(table_pointer, 0x5000_0000);
}

#[test]
fn flat_table_hook_splices_and_restores() {
    let mut table = vec![10usize, 11, 12, 13, 14];
    let original = table.clone();

    let hook = FunctionTableHook::install(&mut table, &vec![(1usize, 91usize), (3, 93)]);
    assert_eq!(table, vec![10, 91, 12, 93, 14]);

    hook.restore(&mut table);
    assert_eq!(table, original);
}

#[test]
fn client_table_hook_redirects_one_ordinal() {
    let functions: Vec<usize> = (0..NUM_CLIENT_FUNCS).map(|i| 0x1000 + i).collect();
    let mut client = ClientFuncs::new(functions.clone());

    client.hook(ClientFuncsTable::CreateMove, 0xFEED);
    assert_eq!(client.functions[14], 0xFEED);
    assert_eq!(client.functions[19], functions[19]);

    client.hook(ClientFuncsTable::CalcRefDef, 0xF00D);
    assert_eq!(client.functions[19], 0xF00D);
    assert_eq!(client.functions[14], 0xFEED);
}

#[test]
fn client_ordinals_match_the_target_build() {
    assert_eq!(ClientFuncsTable::CreateMove.index(), 14);
    assert_eq!(ClientFuncsTable::CalcRefDef.index(), 19);
    assert_eq!(ClientFuncsTable::HudAddEntity.index(), 20);
    assert_eq!(ClientFuncsTable::HudProcessPlayerState.index(), 28);
    assert_eq!(ClientFuncsTable::HudFrame.index(), 33);
    assert_eq!(ClientFuncsTable::NumEntries.index(), NUM_CLIENT_FUNCS);
}
