use hookcore::game::client::{ClientFuncs, NUM_CLIENT_FUNCS};
use hookcore::game::vgui2;
use hookcore::hook::client::ClientReplacements;
use hookcore::hook::{
    get_screen_fade_instruction, init_client_funcs, init_engine_funcs, init_player_move,
    init_user_msg, read_le_u32, run, Error, Hook,
};
use hookcore::module::{ErrorKind, GameModule, Module};

const BASE: usize = 0x1000_0000;
const SIZE: usize = 4096;

const STRING_OFF: usize = 100;
const PUSH_OFF: usize = 200;
const ENGINE_OFF: usize = 1000;
const REGISTRATION_OFF: usize = 1500;
const INNER_OFF: usize = 1600;

const CLIENT_FUNCS_ADDRESS: usize = 0x2000_0000;
const PLAYER_MOVE_ADDRESS: usize = 0x2000_1000;
const USER_MSG_HEAD: usize = 0x3000_0000;

fn write_le32(image: &mut [u8], off: usize, value: u32) {
    image[off..off + 4].copy_from_slice(&value.to_le_bytes());
}

/// A miniature renderer image with every structure the discovery walks:
/// the fade-message string, the instruction pushing its address, the
/// embedded structure pointers, the engine table, and the registration code
/// leading to the user-message list head.
fn renderer_image() -> Vec<u8> {
    let mut image = vec![0u8; SIZE];

    image[STRING_OFF..STRING_OFF + 10].copy_from_slice(b"ScreenFade");

    image[PUSH_OFF] = 0x68;
    write_le32(&mut image, PUSH_OFF + 1, (BASE + STRING_OFF) as u32);

    write_le32(&mut image, PUSH_OFF + 13, (BASE + ENGINE_OFF) as u32);
    write_le32(&mut image, PUSH_OFF + 19, CLIENT_FUNCS_ADDRESS as u32);
    write_le32(&mut image, PUSH_OFF + 36, PLAYER_MOVE_ADDRESS as u32);

    // Engine table: the user-message registration entry.
    write_le32(&mut image, ENGINE_OFF + 18 * 4, (BASE + REGISTRATION_OFF) as u32);

    // Registration code: a relative call operand resolving to the inner
    // function, whose code embeds the list head's address.
    let rel = (INNER_OFF - REGISTRATION_OFF - 13) as u32;
    write_le32(&mut image, REGISTRATION_OFF + 9, rel);
    write_le32(&mut image, INNER_OFF + 13, USER_MSG_HEAD as u32);

    image
}

fn hw_module() -> GameModule {
    GameModule {
        module: Module {
            name: "hw.dll".to_string(),
            base: BASE,
            size: SIZE,
            end: BASE + SIZE,
        },
        factory: 0x1000_0010,
    }
}

fn vgui2_module() -> GameModule {
    GameModule {
        module: Module {
            name: "vgui2.dll".to_string(),
            base: 0x1100_0000,
            size: 0x1000,
            end: 0x1100_1000,
        },
        factory: 0x1100_0010,
    }
}

fn client_table() -> ClientFuncs {
    ClientFuncs::new((0..NUM_CLIENT_FUNCS).map(|i| 0x4000 + i).collect())
}

fn panel_table() -> Vec<usize> {
    (0..vgui2::NUM_VTABLE_ENTRIES).map(|i| 0xAAA0 + i).collect()
}

fn client_replacements() -> ClientReplacements {
    ClientReplacements {
        create_move: 0xB1,
        calc_ref_def: 0xB2,
        hud_add_entity: 0xB3,
        hud_process_player_state: 0xB4,
        hud_frame: 0xB5,
    }
}

#[test]
fn read_le_u32_decodes_little_endian() {
    let image = vec![0x78, 0x56, 0x34, 0x12, 0xFF];
    assert_eq!(read_le_u32(&image, 0), 0x1234_5678);
    assert_eq!(read_le_u32(&image, 1), 0xFF12_3456);
}

#[test]
fn discovery_locates_the_push_instruction() {
    let image = renderer_image();
    let hw = hw_module();
    let address = get_screen_fade_instruction(&hw.module, &image).unwrap();
    assert_eq!(address, BASE + PUSH_OFF);
}

#[test]
fn discovery_reports_a_missing_string() {
    let image = vec![0u8; SIZE];
    let hw = hw_module();
    let err = get_screen_fade_instruction(&hw.module, &image).unwrap_err();
    match err {
        Error::NotFoundStringLit(name) => assert_eq!(name, "ScreenFade"),
        _ => panic!("expected the string literal to be missing"),
    }
}

#[test]
fn discovery_reports_a_missing_push_instruction() {
    let mut image = vec![0u8; SIZE];
    image[STRING_OFF..STRING_OFF + 10].copy_from_slice(b"ScreenFade");
    let hw = hw_module();
    let err = get_screen_fade_instruction(&hw.module, &image).unwrap_err();
    match err {
        Error::NotFoundBytes(what) => assert_eq!(what, "push ScreenFade instruction"),
        _ => panic!("expected the push instruction to be missing"),
    }
}

#[test]
fn discovery_resolves_the_embedded_pointers() {
    let image = renderer_image();
    let hw = hw_module();
    let screen_fade = get_screen_fade_instruction(&hw.module, &image).unwrap();

    assert_eq!(
        init_engine_funcs(&hw.module, &image, screen_fade).unwrap(),
        BASE + ENGINE_OFF
    );
    assert_eq!(
        init_client_funcs(&hw.module, &image, screen_fade).unwrap(),
        CLIENT_FUNCS_ADDRESS
    );
    assert_eq!(
        init_player_move(&hw.module, &image, screen_fade).unwrap(),
        PLAYER_MOVE_ADDRESS
    );
    assert_eq!(
        init_user_msg(&hw.module, &image, BASE + REGISTRATION_OFF).unwrap(),
        USER_MSG_HEAD
    );
}

#[test]
fn installation_splices_both_tables_and_teardown_restores_them() {
    let image = renderer_image();
    let hw = hw_module();
    let vgui2_mod = vgui2_module();
    let mut client = client_table();
    let original_client = client.functions.clone();
    let table = panel_table();
    let mut panel_pointer: usize = 0x5000_0000;

    let hook = Hook::new(
        &hw,
        &image,
        0x4000_0000,
        &vgui2_mod,
        0x4100_0000,
        &mut panel_pointer,
        &table,
        0x6000_0000,
        0x7000_0000,
        &mut client,
        &client_replacements(),
    )
    .unwrap();

    // Both hooks are live: the client ordinals are redirected and the panel
    // dispatches through the clone.
    assert_eq!(client.functions[14], 0xB1);
    assert_eq!(client.functions[33], 0xB5);
    assert_eq!(panel_pointer, 0x7000_0000);

    // The discovered context was validated and recorded.
    assert_eq!(hook.surface.address, 0x4000_0000);
    assert_eq!(hook.engine_funcs, BASE + ENGINE_OFF);
    assert_eq!(hook.player_move, PLAYER_MOVE_ADDRESS);
    assert_eq!(hook.user_msg, USER_MSG_HEAD);
    assert_eq!(hook.client_funcs_address, CLIENT_FUNCS_ADDRESS);

    hook.teardown(&mut panel_pointer, &mut client);
    assert_eq!(client.functions, original_client);
    assert_eq!(panel_pointer, 0x5000_0000);
}

#[test]
fn run_installs_idles_and_leaves_no_trace() {
    let image = renderer_image();
    let hw = hw_module();
    let vgui2_mod = vgui2_module();
    let mut client = client_table();
    let original_client = client.functions.clone();
    let table = panel_table();
    let mut panel_pointer: usize = 0x5000_0000;

    run(
        &hw,
        &image,
        0x4000_0000,
        &vgui2_mod,
        0x4100_0000,
        &mut panel_pointer,
        &table,
        0x6000_0000,
        0x7000_0000,
        &mut client,
        &client_replacements(),
    )
    .unwrap();

    assert_eq!(client.functions, original_client);
    assert_eq!(panel_pointer, 0x5000_0000);
}

#[test]
fn a_failing_panel_step_unwinds_the_client_hook() {
    let image = renderer_image();
    let hw = hw_module();
    let vgui2_mod = vgui2_module();
    let mut client = client_table();
    let original_client = client.functions.clone();
    let table = panel_table();
    // A null panel table pointer makes the very last installation step fail.
    let mut panel_pointer: usize = 0;

    let result = Hook::new(
        &hw,
        &image,
        0x4000_0000,
        &vgui2_mod,
        0x4100_0000,
        &mut panel_pointer,
        &table,
        0x6000_0000,
        0x7000_0000,
        &mut client,
        &client_replacements(),
    );

    let err = match result {
        Err(e) => e,
        Ok(_) => panic!("expected installation to fail"),
    };

    match err {
        Error::Panel(hookcore::hook::panel::Error::NullVtable(name)) => {
            assert_eq!(name, "VGUI_Panel007");
        }
        _ => panic!("expected the panel hook to be the failing step"),
    }

    // No partial hook state: the client table was restored before the error
    // propagated.
    assert_eq!(client.functions, original_client);
    assert_eq!(panel_pointer, 0);
}

#[test]
fn a_null_embedded_pointer_is_rejected_with_its_diagnostic() {
    let mut image = renderer_image();
    // Zero out the embedded engine-table pointer.
    write_le32(&mut image, PUSH_OFF + 13, 0);
    let hw = hw_module();
    let screen_fade = get_screen_fade_instruction(&hw.module, &image).unwrap();

    let err = init_engine_funcs(&hw.module, &image, screen_fade).unwrap_err();
    assert!(matches!(
        err,
        Error::Patch(hookcore::memory::Error::NullPointer)
    ));
}

#[test]
fn a_registration_entry_outside_the_image_is_reported() {
    let image = renderer_image();
    let hw = hw_module();
    // An entry point beyond the module's mapped range cannot be chased.
    let err = init_user_msg(&hw.module, &image, BASE + SIZE + 64).unwrap_err();
    match err {
        Error::NotFoundBytes(what) => assert_eq!(what, "user message registration"),
        _ => panic!("expected the registration code to be out of reach"),
    }
}

#[test]
fn a_bad_panel_interface_unwinds_the_client_hook() {
    let image = renderer_image();
    let hw = hw_module();
    let vgui2_mod = vgui2_module();
    let mut client = client_table();
    let original_client = client.functions.clone();
    let table = panel_table();
    let mut panel_pointer: usize = 0x5000_0000;

    let result = Hook::new(
        &hw,
        &image,
        0x4000_0000,
        &vgui2_mod,
        0, // the factory returned a null panel
        &mut panel_pointer,
        &table,
        0x6000_0000,
        0x7000_0000,
        &mut client,
        &client_replacements(),
    );

    let err = match result {
        Err(e) => e,
        Ok(_) => panic!("expected installation to fail"),
    };

    match err {
        Error::Panel(hookcore::hook::panel::Error::Module(e)) => {
            assert_eq!(e.module, "vgui2.dll");
            assert!(matches!(
                e.kind,
                ErrorKind::BadInterface(_, hookcore::memory::Error::NullPointer)
            ));
        }
        _ => panic!("expected the panel interface to be rejected"),
    }

    assert_eq!(client.functions, original_client);
    assert_eq!(panel_pointer, 0x5000_0000);
}

#[test]
fn a_bad_surface_interface_aborts_before_any_install() {
    let image = renderer_image();
    let hw = hw_module();
    let vgui2_mod = vgui2_module();
    let mut client = client_table();
    let original_client = client.functions.clone();
    let table = panel_table();
    let mut panel_pointer: usize = 0x5000_0000;

    let result = Hook::new(
        &hw,
        &image,
        0x4000_0001, // misaligned interface pointer
        &vgui2_mod,
        0x4100_0000,
        &mut panel_pointer,
        &table,
        0x6000_0000,
        0x7000_0000,
        &mut client,
        &client_replacements(),
    );

    let err = match result {
        Err(e) => e,
        Ok(_) => panic!("expected installation to fail"),
    };

    match err {
        Error::Module(e) => {
            assert_eq!(e.module, "hw.dll");
            assert!(matches!(e.kind, ErrorKind::BadInterface(_, _)));
        }
        _ => panic!("expected the surface interface to be rejected"),
    }

    assert_eq!(client.functions, original_client);
    assert_eq!(panel_pointer, 0x5000_0000);
}
