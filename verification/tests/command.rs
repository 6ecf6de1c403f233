use virtio_gpu::command::Command;
use virtio_gpu::header::CtrlHeader;
use virtio_gpu::wire::{FromBytes, IntoBytes};

/// Every code that has a name, with that name.
fn names() -> Vec<(u32, &'static str)> {
    vec![
        (0x100, "GET_DISPLAY_INFO"),
        (0x101, "RESOURCE_CREATE_2D"),
        (0x102, "RESOURCE_UNREF"),
        (0x103, "SET_SCANOUT"),
        (0x104, "RESOURCE_FLUSH"),
        (0x105, "TRANSFER_TO_HOST_2D"),
        (0x106, "RESOURCE_ATTACH_BACKING"),
        (0x107, "RESOURCE_DETACH_BACKING"),
        (0x108, "GET_CAPSET_INFO"),
        (0x109, "GET_CAPSET"),
        (0x10a, "GET_EDID"),
        (0x10b, "RESOURCE_ASSIGN_UUID"),
        (0x10c, "RESOURCE_CREATE_BLOB"),
        (0x10d, "SET_SCANOUT_BLOB"),
        (0x200, "CTX_CREATE"),
        (0x201, "CTX_DESTROY"),
        (0x202, "CTX_ATTACH_RESOURCE"),
        (0x203, "CTX_DETACH_RESOURCE"),
        (0x204, "RESOURCE_CREATE_3D"),
        (0x205, "TRANSFER_TO_HOST_3D"),
        (0x206, "TRANSFER_FROM_HOST_3D"),
        (0x207, "SUBMIT_3D"),
        (0x208, "RESOURCE_MAP_BLOB"),
        (0x209, "RESOURCE_UNMAP_BLOB"),
        (0x300, "UPDATE_CURSOR"),
        (0x301, "MOVE_CURSOR"),
        (0x1100, "OK_NODATA"),
        (0x1101, "OK_DISPLAY_INFO"),
        (0x1102, "OK_CAPSET_INFO"),
        (0x1103, "OK_CAPSET"),
        (0x1104, "OK_EDID"),
        (0x1105, "OK_RESOURCE_UUID"),
        (0x1106, "OK_MAP_INFO"),
        (0x1200, "ERR_UNSPEC"),
        (0x1201, "ERR_OUT_OF_MEMORY"),
        (0x1202, "ERR_INVALID_SCANOUT_ID"),
        (0x1203, "ERR_INVALID_RESOURCE_ID"),
        (0x1204, "ERR_INVALID_CONTEXT_ID"),
        (0x1205, "ERR_INVALID_PARAMETER"),
    ]
}

#[test]
fn known_codes_are_shown_by_name() {
    for (code, name) in names() {
        assert_eq!(Command(code).name(), Some(name));
        assert_eq!(Command(code).debug_string(), name);
        assert_eq!(format!("{:?}", Command(code)), name);
    }
}

#[test]
fn other_codes_are_shown_in_hexadecimal() {
    assert_eq!(Command(0).name(), None);
    assert_eq!(Command(0).debug_string(), "Command(0x0)");
    assert_eq!(Command(0xf).debug_string(), "Command(0xf)");
    assert_eq!(Command(0x10e).debug_string(), "Command(0x10e)");
    assert_eq!(Command(0xabc0).debug_string(), "Command(0xabc0)");
    assert_eq!(Command(u32::MAX).debug_string(), "Command(0xffffffff)");
    for code in 0u32..0x2000 {
        if names().iter().all(|(known, _)| *known != code) {
            assert_eq!(Command(code).debug_string(), format!("Command({:#x})", code));
            assert_eq!(format!("{:?}", Command(code)), format!("Command({:#x})", code));
        }
    }
}

#[test]
fn responses_errors_and_cursor_commands() {
    assert!(!Command(0x10ff).is_response());
    assert!(Command(Command::OK_NODATA).is_response());
    assert!(!Command(Command::OK_MAP_INFO).is_error());
    assert!(!Command(0x11ff).is_error());
    assert!(Command(Command::ERR_UNSPEC).is_error());
    assert!(Command(u32::MAX).is_error());
    assert!(!Command(0x2ff).is_cursor());
    assert!(Command(Command::UPDATE_CURSOR).is_cursor());
    assert!(Command(Command::MOVE_CURSOR).is_cursor());
    assert!(!Command(0x302).is_cursor());
}

#[test]
fn errors_are_responses_and_cursor_commands_are_not() {
    for code in [0, 0x300, 0x301, 0x1100, 0x11ff, 0x1200, 0x1205, u32::MAX] {
        let command = Command(code);
        assert!(!command.is_error() || command.is_response());
        assert!(!command.is_cursor() || !command.is_response());
    }
}

#[test]
fn codes_travel_as_four_bytes() {
    assert_eq!(Command(0x1203).as_bytes(), vec![0x03, 0x12, 0, 0]);
    assert_eq!(Command::read_at(&[9, 0x03, 0x12, 0, 0], 1), Command(0x1203));
    assert_eq!(Command::size(), 4);
}

#[test]
fn codes_are_shown_by_name_inside_messages() {
    let header = CtrlHeader::with_type(Command(Command::GET_EDID));
    assert!(format!("{:?}", header).starts_with("CtrlHeader { hdr_type: GET_EDID, flags: 0,"));
    assert_eq!(format!("<{:?}>", Command(0x10e)), "<Command(0x10e)>");
}
