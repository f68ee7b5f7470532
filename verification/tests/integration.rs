//! The device operations on a handle whose opening returned the raw handle
//! value `HANDLE`: each one forms the request that the handle sends, and a
//! driver that acknowledges every request makes each operation succeed.

use alluno_hinpud_sys::device::IoRequest;
use alluno_hinpud_sys::ioctl::{IOCTL_KEYBOARD_SEND, IOCTL_MOUSE_SEND};
use alluno_hinpud_sys::key_flags;
use alluno_hinpud_sys::mouse_button_flags;
use alluno_hinpud_sys::scan_code;
use alluno_hinpud_sys::{AllunoHinpudKeyboard, AllunoHinpudMouse, Transfer};

const HANDLE: isize = 0x1f4;

fn open_keyboard() -> AllunoHinpudKeyboard {
    AllunoHinpudKeyboard::from_created_handle(Some(HANDLE)).expect("a valid handle is kept")
}

fn open_mouse() -> AllunoHinpudMouse {
    AllunoHinpudMouse::from_created_handle(Some(HANDLE)).expect("a valid handle is kept")
}

/// Performs a transfer against a driver that acknowledges every request;
/// returns the requests performed and whether the transfer completed.
fn perform(mut transfer: Transfer) -> (Vec<Vec<u8>>, bool) {
    let mut sent = Vec::new();
    while let Some(request) = transfer.next_request() {
        sent.push(request.input.clone());
        transfer.record(true);
    }
    (sent, transfer.is_complete())
}

fn keyboard_record(scan: u16, flags: u16) -> Vec<u8> {
    let mut b = vec![0u8; 12];
    b[2..4].copy_from_slice(&scan.to_le_bytes());
    b[4..6].copy_from_slice(&flags.to_le_bytes());
    b
}

fn mouse_record(flags: u16, button_flags: u16, button_data: i16, x: i32, y: i32) -> Vec<u8> {
    let mut b = vec![0u8; 24];
    b[2..4].copy_from_slice(&flags.to_le_bytes());
    b[4..6].copy_from_slice(&button_flags.to_le_bytes());
    b[6..8].copy_from_slice(&button_data.to_le_bytes());
    b[12..16].copy_from_slice(&x.to_le_bytes());
    b[16..20].copy_from_slice(&y.to_le_bytes());
    b
}

fn is_ok(request: &IoRequest, control_code: u32) -> bool {
    request.handle == HANDLE
        && request.control_code == control_code
        && request.input_len as usize == request.input.len()
}

#[test]
fn test_open_keyboard() {
    let _ = AllunoHinpudKeyboard::from_created_handle(Some(HANDLE));
    assert!(AllunoHinpudKeyboard::from_created_handle(None).is_none());
}

#[test]
fn test_open_mouse() {
    let _ = AllunoHinpudMouse::from_created_handle(Some(HANDLE));
    assert!(AllunoHinpudMouse::from_created_handle(None).is_none());
}

#[test]
fn test_send_key() {
    let kbd = open_keyboard();
    let (sent, ok) = perform(kbd.send_key(scan_code::RIGHT_SHIFT));
    assert!(ok);
    assert_eq!(
        sent,
        vec![
            keyboard_record(scan_code::RIGHT_SHIFT, key_flags::KEY_MAKE),
            keyboard_record(scan_code::RIGHT_SHIFT, key_flags::BREAK),
        ]
    );
}

#[test]
fn test_press_release_key() {
    let kbd = open_keyboard();
    let press = kbd.press_key(scan_code::RIGHT_SHIFT);
    assert!(is_ok(&press, IOCTL_KEYBOARD_SEND));
    assert_eq!(press.input, keyboard_record(0x36, 0));
    let release = kbd.release_key(scan_code::RIGHT_SHIFT);
    assert!(is_ok(&release, IOCTL_KEYBOARD_SEND));
    assert_eq!(release.input, keyboard_record(0x36, 1));
}

#[test]
fn test_mouse_relative_move() {
    let mou = open_mouse();
    let request = mou.send_move(0, 0, false);
    assert!(is_ok(&request, IOCTL_MOUSE_SEND));
    assert_eq!(request.input, vec![0u8; 24]);
}

#[test]
fn test_mouse_absolute_move() {
    let mou = open_mouse();
    let request = mou.send_move(32767, 32767, true);
    assert!(is_ok(&request, IOCTL_MOUSE_SEND));
    assert_eq!(request.input, mouse_record(3, 0, 0, 32767, 32767));
    assert_eq!(&request.input[12..20], &[0xff, 0x7f, 0, 0, 0xff, 0x7f, 0, 0]);
}

#[test]
fn test_mouse_button() {
    let mou = open_mouse();
    let down = mou.send_button(mouse_button_flags::RIGHT_BUTTON_DOWN);
    assert!(is_ok(&down, IOCTL_MOUSE_SEND));
    assert_eq!(down.input, mouse_record(0, 0x0004, 0, 0, 0));
    let up = mou.send_button(mouse_button_flags::RIGHT_BUTTON_UP);
    assert!(is_ok(&up, IOCTL_MOUSE_SEND));
    assert_eq!(up.input, mouse_record(0, 0x0008, 0, 0, 0));
}

#[test]
fn test_mouse_wheel() {
    let mou = open_mouse();
    let up = mou.send_wheel(120);
    assert!(is_ok(&up, IOCTL_MOUSE_SEND));
    assert_eq!(&up.input[4..8], &[0x00, 0x04, 0x78, 0x00]);
    let down = mou.send_wheel(-120);
    assert!(is_ok(&down, IOCTL_MOUSE_SEND));
    assert_eq!(&down.input[4..8], &[0x00, 0x04, 0x88, 0xff]);
}

#[test]
fn test_mouse_hwheel() {
    let mou = open_mouse();
    let right = mou.send_hwheel(120);
    assert!(is_ok(&right, IOCTL_MOUSE_SEND));
    assert_eq!(right.input, mouse_record(0, 0x0800, 120, 0, 0));
    let left = mou.send_hwheel(-120);
    assert!(is_ok(&left, IOCTL_MOUSE_SEND));
    assert_eq!(left.input, mouse_record(0, 0x0800, -120, 0, 0));
}

#[test]
fn test_extended_key() {
    let kbd = open_keyboard();
    // Right Ctrl = E0 + LEFT_CTRL
    let down = kbd.send_key_raw(scan_code::LEFT_CTRL, key_flags::E0);
    assert!(is_ok(&down, IOCTL_KEYBOARD_SEND));
    assert_eq!(down.input, keyboard_record(0x1d, 0x0002));
    let up = kbd.send_key_raw(scan_code::LEFT_CTRL, key_flags::BREAK | key_flags::E0);
    assert!(is_ok(&up, IOCTL_KEYBOARD_SEND));
    assert_eq!(up.input, keyboard_record(0x1d, 0x0003));
}
