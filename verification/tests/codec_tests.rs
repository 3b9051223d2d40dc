use prism::codec::{check_frame_len, decode_packet, encode_frame, encode_packet, parse_frame_len};
use prism::packet::{KeyCode, Modifiers, MouseButton, Packet};

fn roundtrip(p: Packet) {
    let bytes = encode_packet(&p);
    let q = decode_packet(&bytes);
    assert_eq!(q, Some(p));
}

#[test]
fn roundtrip_create_titled() {
    roundtrip(Packet::Create { width: 640, height: 480, title: Some("T".to_string()) });
}

#[test]
fn roundtrip_create_untitled() {
    roundtrip(Packet::Create { width: -1, height: i32::MAX, title: None });
}

#[test]
fn roundtrip_create_unicode_title() {
    roundtrip(Packet::Create { width: 1, height: 2, title: Some("fen\u{ea}tre \u{1F5A5}".to_string()) });
}

#[test]
fn roundtrip_close() {
    roundtrip(Packet::Close { window_id: u64::MAX });
}

#[test]
fn roundtrip_paint() {
    roundtrip(Packet::Paint { window_id: 3, buffer: vec![0u8, 255, 17, 4] });
}

#[test]
fn roundtrip_paint_empty_buffer() {
    roundtrip(Packet::Paint { window_id: 0, buffer: Vec::new() });
}

#[test]
fn roundtrip_request_api_version() {
    roundtrip(Packet::RequestAPIVersion);
}

#[test]
fn roundtrip_request_window_position() {
    roundtrip(Packet::RequestWindowPosition { window_id: 9 });
}

#[test]
fn roundtrip_request_window_size() {
    roundtrip(Packet::RequestWindowSize { window_id: 10 });
}

#[test]
fn roundtrip_create_success() {
    roundtrip(Packet::CreateSuccess { window_id: 0x0123_4567_89ab_cdef });
}

#[test]
fn roundtrip_closed() {
    roundtrip(Packet::Closed);
}

#[test]
fn roundtrip_mouse_enter_leave() {
    roundtrip(Packet::MouseEnter);
    roundtrip(Packet::MouseLeave);
}

#[test]
fn roundtrip_mouse_position() {
    roundtrip(Packet::MousePosition { x: -5, y: i32::MIN });
}

#[test]
fn roundtrip_mouse_down_up() {
    roundtrip(Packet::MouseDown { button: MouseButton::Left, x: 1, y: 2 });
    roundtrip(Packet::MouseDown { button: MouseButton::Other(200), x: -1, y: -2 });
    roundtrip(Packet::MouseUp { button: MouseButton::Right, x: 0, y: 0 });
    roundtrip(Packet::MouseUp { button: MouseButton::Middle, x: 7, y: 8 });
}

#[test]
fn roundtrip_key_down_up() {
    let mods = Modifiers { shift: true, ctrl: false, alt: true, logo: false };
    roundtrip(Packet::KeyDown { key: KeyCode::Backspace, modifiers: mods });
    roundtrip(Packet::KeyDown { key: KeyCode::Character('\u{2603}'), modifiers: mods });
    roundtrip(Packet::KeyUp { key: KeyCode::Function(12), modifiers: mods });
    roundtrip(Packet::KeyUp {
        key: KeyCode::Tab,
        modifiers: Modifiers { shift: false, ctrl: true, alt: false, logo: true },
    });
    roundtrip(Packet::KeyUp { key: KeyCode::Enter, modifiers: mods });
    roundtrip(Packet::KeyUp { key: KeyCode::Escape, modifiers: mods });
    roundtrip(Packet::KeyUp { key: KeyCode::Space, modifiers: mods });
    roundtrip(Packet::KeyUp { key: KeyCode::Delete, modifiers: mods });
}

#[test]
fn roundtrip_position_size_resize() {
    roundtrip(Packet::Position { x: 10, y: -10 });
    roundtrip(Packet::Size { width: 800, height: 600 });
    roundtrip(Packet::Resize { width: 0, height: -1 });
}

#[test]
fn roundtrip_suspend_resume_demand_paint() {
    roundtrip(Packet::Suspend);
    roundtrip(Packet::Resume);
    roundtrip(Packet::DemandPaint);
}

#[test]
fn roundtrip_api_version() {
    roundtrip(Packet::APIVersion { major: 0, minor: 0, patch: 1 });
    roundtrip(Packet::APIVersion { major: 255, minor: 0, patch: 255 });
}

#[test]
fn exact_bytes_close() {
    let bytes = encode_packet(&Packet::Close { window_id: 5 });
    assert_eq!(bytes, vec![1u8, 5, 0, 0, 0, 0, 0, 0, 0]);
}

#[test]
fn exact_bytes_create() {
    let bytes = encode_packet(&Packet::Create {
        width: 640,
        height: 480,
        title: Some("T".to_string()),
    });
    let mut expected = vec![0u8];
    expected.extend_from_slice(&640i32.to_le_bytes());
    expected.extend_from_slice(&480i32.to_le_bytes());
    expected.push(1);
    expected.extend_from_slice(&1u64.to_le_bytes());
    expected.push(b'T');
    assert_eq!(bytes, expected);
}

#[test]
fn decode_rejects_empty() {
    assert_eq!(decode_packet(&Vec::new()), None);
}

#[test]
fn decode_rejects_unknown_tag() {
    assert_eq!(decode_packet(&vec![22u8]), None);
}

#[test]
fn decode_rejects_truncated_fields() {
    // A Close frame needs eight identifier bytes.
    assert_eq!(decode_packet(&vec![1u8, 5, 0]), None);
}

#[test]
fn decode_rejects_trailing_bytes() {
    let mut bytes = encode_packet(&Packet::Closed);
    bytes.push(0);
    assert_eq!(decode_packet(&bytes), None);
}

#[test]
fn decode_rejects_bad_bool() {
    // KeyDown with a modifier byte that is neither zero nor one.
    let mut bytes = vec![13u8, 0];
    bytes.extend_from_slice(&[2, 0, 0, 0]);
    assert_eq!(decode_packet(&bytes), None);
}

#[test]
fn decode_rejects_surrogate_char() {
    // KeyDown of Character with the code point 0xD800, which is no scalar.
    let mut bytes = vec![13u8, 6];
    bytes.extend_from_slice(&0xD800u32.to_le_bytes());
    bytes.extend_from_slice(&[0, 0, 0, 0]);
    assert_eq!(decode_packet(&bytes), None);
}

#[test]
fn decode_rejects_invalid_utf8_title() {
    let mut bytes = vec![0u8];
    bytes.extend_from_slice(&1i32.to_le_bytes());
    bytes.extend_from_slice(&1i32.to_le_bytes());
    bytes.push(1);
    bytes.extend_from_slice(&2u64.to_le_bytes());
    bytes.extend_from_slice(&[0xff, 0xfe]);
    assert_eq!(decode_packet(&bytes), None);
}

#[test]
fn oversize_length_prefix_rejected() {
    // One byte over the ten-mebibyte cap.
    assert!(!check_frame_len(10 * 1024 * 1024 + 1));
    // The classic oversize attack prefix.
    assert!(!check_frame_len(0x0100_0001));
    // The cap itself is fine.
    assert!(check_frame_len(10 * 1024 * 1024));
    assert!(check_frame_len(0));
}

#[test]
fn frame_carries_length_prefix_and_payload() {
    let p = Packet::CreateSuccess { window_id: 7 };
    let payload = encode_packet(&p);
    let frame = encode_frame(&p).unwrap();
    assert_eq!(frame.len(), payload.len() + 4);
    assert_eq!(&frame[0..4], (payload.len() as u32).to_le_bytes().as_slice());
    assert_eq!(&frame[4..], payload.as_slice());

    let prefix: Vec<u8> = frame[0..4].to_vec();
    assert_eq!(parse_frame_len(&prefix), Some(payload.len() as u32));
}

#[test]
fn frame_roundtrip_through_receive_path() {
    // What the server does per frame: read the prefix, bound-check it,
    // read the payload, decode.
    let p = Packet::Paint { window_id: 2, buffer: vec![9, 9, 9] };
    let frame = encode_frame(&p).unwrap();
    let prefix: Vec<u8> = frame[0..4].to_vec();
    let len = parse_frame_len(&prefix).unwrap();
    assert!(check_frame_len(len));
    let payload: Vec<u8> = frame[4..4 + len as usize].to_vec();
    assert_eq!(decode_packet(&payload), Some(p));
}
