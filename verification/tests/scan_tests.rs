use hookcore::module::{ErrorKind, GameModule, Module};

fn module_at(base: usize, size: usize) -> Module {
    Module {
        name: "hw.dll".to_string(),
        base,
        size,
        end: base + size,
    }
}

#[test]
fn find_bytes_returns_base_plus_offset() {
    let base = 0x1000_0000;
    let mut image = vec![0u8; 256];
    let pattern = [0xDE, 0xAD, 0xBE, 0xEF];
    image[40..44].copy_from_slice(&pattern);

    let module = module_at(base, image.len());
    assert_eq!(module.find_bytes(&image, &pattern), Some(base + 40));
}

#[test]
fn find_bytes_returns_first_of_several() {
    let base = 0x2000;
    let mut image = vec![0u8; 128];
    image[60..62].copy_from_slice(&[7, 7]);
    image[10..12].copy_from_slice(&[7, 7]);

    let module = module_at(base, image.len());
    assert_eq!(module.find_bytes(&image, &[7, 7]), Some(base + 10));
}

#[test]
fn find_bytes_absent_pattern_is_none() {
    let module = module_at(0x1000, 64);
    let image = vec![0u8; 64];
    assert_eq!(module.find_bytes(&image, &[1, 2, 3]), None);
}

#[test]
fn find_bytes_pattern_equal_to_whole_image() {
    let base = 0x4000;
    let image = vec![9u8, 8, 7];
    let module = module_at(base, 3);
    assert_eq!(module.find_bytes(&image, &[9, 8, 7]), Some(base));
}

#[test]
fn find_bytes_pattern_longer_than_image_is_none() {
    let module = module_at(0x4000, 2);
    let image = vec![1u8, 2];
    assert_eq!(module.find_bytes(&image, &[1, 2, 3]), None);
}

#[test]
fn find_string_matches_exact_bytes() {
    let base = 0x3000;
    let mut image = vec![0u8; 128];
    image[32..42].copy_from_slice(b"ScreenFade");

    let module = module_at(base, image.len());
    assert_eq!(module.find_string(&image, "ScreenFade"), Some(base + 32));
    assert_eq!(module.find_string(&image, "ScreenFadf"), None);
}

#[test]
fn find_pattern_honours_wildcards() {
    let base = 0x5000;
    let mut image = vec![0u8; 64];
    image[20..24].copy_from_slice(&[0x68, 0x11, 0x22, 0x33]);

    let module = module_at(base, image.len());
    let masked = [Some(0x68), None, Some(0x22), None];
    assert_eq!(module.find_pattern(&image, &masked), Some(base + 20));

    let missing = [Some(0x68), Some(0x99), None, None];
    assert_eq!(module.find_pattern(&image, &missing), None);
}

#[test]
fn module_from_null_handle_is_null_module() {
    let err = Module::from("hw.dll", 0, Some((0x1000, 0x2000))).unwrap_err();
    assert_eq!(err.module, "hw.dll");
    assert!(matches!(err.kind, ErrorKind::NullModule));
}

#[test]
fn module_from_missing_info_is_query_failure() {
    let err = Module::from("hw.dll", 0x7FFF_0000, None).unwrap_err();
    assert!(matches!(err.kind, ErrorKind::GetModuleInformation));
}

#[test]
fn module_from_computes_end() {
    let module = Module::from("hw.dll", 0x7FFF_0000, Some((0x1000_0000, 0x0040_0000))).unwrap();
    assert_eq!(module.base, 0x1000_0000);
    assert_eq!(module.size, 0x0040_0000);
    assert_eq!(module.end, 0x1040_0000);
    assert_eq!(module.name, "hw.dll");
}

#[test]
fn game_module_requires_factory_export() {
    let module = module_at(0x1000_0000, 0x1000);
    let err = GameModule::from(module, None).unwrap_err();
    assert_eq!(err.module, "hw.dll");
    assert!(matches!(err.kind, ErrorKind::GetCreateInterface));

    let module = module_at(0x1000_0000, 0x1000);
    let game = GameModule::from(module, Some(0x1234_5678)).unwrap();
    assert_eq!(game.factory, 0x1234_5678);
}

#[test]
fn interface_name_gains_terminator() {
    let module = module_at(0x1000_0000, 0x1000);
    let game = GameModule::from(module, Some(0x1000_0010)).unwrap();
    let bytes = game.interface_name_bytes("VGUI_Panel007").unwrap();
    assert_eq!(bytes, b"VGUI_Panel007\0");
}

#[test]
fn interface_name_with_interior_terminator_is_rejected_at_its_index() {
    let module = module_at(0x1000_0000, 0x1000);
    let game = GameModule::from(module, Some(0x1000_0010)).unwrap();
    let err = game.interface_name_bytes("ab\0cd").unwrap_err();
    assert_eq!(err.module, "hw.dll");
    match err.kind {
        ErrorKind::StrConversion(name, position) => {
            assert_eq!(name, "ab\0cd");
            assert_eq!(position, 2);
        }
        _ => panic!("expected a string-conversion failure"),
    }
}

#[test]
fn create_interface_validates_the_returned_pointer() {
    let module = module_at(0x1000_0000, 0x1000);
    let game = GameModule::from(module, Some(0x1000_0010)).unwrap();

    let handle = game.create_interface("VGUI_Panel007", 0x2000_0000, 4).unwrap();
    assert_eq!(handle.address, 0x2000_0000);
    assert_eq!(handle.align, 4);

    let err = game.create_interface("VGUI_Panel007", 0, 4).unwrap_err();
    assert!(matches!(
        err.kind,
        ErrorKind::BadInterface(_, hookcore::memory::Error::NullPointer)
    ));

    let err = game.create_interface("VGUI_Panel007", 0x2000_0001, 4).unwrap_err();
    match err.kind {
        ErrorKind::BadInterface(name, e) => {
            assert_eq!(name, "VGUI_Panel007");
            assert_eq!(
                e,
                hookcore::memory::Error::UnalignedPointer {
                    address: 0x2000_0001,
                    required_alignment: 4,
                    num_bytes_needed_to_align_ptr: 3,
                }
            );
        }
        _ => panic!("expected a bad-interface failure"),
    }
}
