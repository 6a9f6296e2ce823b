use hpg_server::strings::{make_usb_string, make_utf16le, usb_gadget_get_string};

#[test]
fn utf16le_of_ascii() {
    assert_eq!(make_utf16le("Ab"), vec![b'A', 0, b'b', 0]);
    assert_eq!(make_utf16le(""), Vec::<u8>::new());
}

#[test]
fn utf16le_of_wide_characters() {
    assert_eq!(make_utf16le("\u{00e9}"), vec![0xe9, 0x00]);
    assert_eq!(make_utf16le("\u{20ac}"), vec![0xac, 0x20]);
    assert_eq!(make_utf16le("\u{1f600}"), vec![0x3d, 0xd8, 0x00, 0xde]);
}

#[test]
fn usb_string_header() {
    assert_eq!(make_usb_string("0001"), vec![10, 3, b'0', 0, b'0', 0, b'0', 0, b'1', 0]);
    assert_eq!(make_usb_string(""), vec![2, 3]);
}

#[test]
fn language_id_string() {
    assert_eq!(usb_gadget_get_string(0), Some(vec![4, 3, 0x09, 0x04]));
}

#[test]
fn known_string_ids() {
    let names = [
        "Antoni Przybylik",
        "Bionik Hexapod PWM Gadget",
        "0001",
        "High speed configuration",
        "Low speed configuration",
        "PWM control interface",
    ];
    for (k, name) in names.iter().enumerate() {
        let found = usb_gadget_get_string((k + 1) as u8).unwrap();
        let units = name.encode_utf16().count();
        assert_eq!(found.len(), 2 + 2 * units);
        assert_eq!(found[0] as usize, 2 + 2 * units);
        assert_eq!(found[1], 3);
        assert_eq!(found[2..].to_vec(), make_utf16le(name));
    }
}

#[test]
fn unknown_string_ids() {
    for id in 7u8..=255 {
        assert_eq!(usb_gadget_get_string(id), None);
    }
}
