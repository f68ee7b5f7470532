use alluno_hinpud_sys::device::INVALID_HANDLE_VALUE;
use alluno_hinpud_sys::ioctl::{IOCTL_KEYBOARD_SEND, IOCTL_MOUSE_SEND};
use alluno_hinpud_sys::key_flags;
use alluno_hinpud_sys::monitor::{
    key_transition, mouse_action, parse_mode, summarize, EventCounts, EventMonitor,
    KeyTransition, Mode, MouseAction, TestMethod, Verdict,
};
use alluno_hinpud_sys::mouse_button_flags;
use alluno_hinpud_sys::mouse_move_flags;
use alluno_hinpud_sys::scan_code;
use alluno_hinpud_sys::selftest::{
    baseline_test_plan, driver_test_plan, sendinput_key_flags, DriverAction, Section,
    SyntheticInput, MOUSEEVENTF_LEFTDOWN, MOUSEEVENTF_LEFTUP, MOUSEEVENTF_MOVE,
};
use alluno_hinpud_sys::wire::{KEYBOARD_INPUT_DATA_SIZE, MOUSE_INPUT_DATA_SIZE};
use alluno_hinpud_sys::{
    AllunoHinpud, AllunoHinpudKeyboard, AllunoHinpudMouse, DeviceKind, KeyboardInputData,
    MouseInputData, Transfer,
};

fn zero_counts() -> EventCounts {
    EventCounts { keyboard_hardware: 0, keyboard_injected: 0, mouse_hardware: 0, mouse_injected: 0 }
}

#[test]
fn control_codes_are_ctl_codes() {
    assert_eq!(IOCTL_KEYBOARD_SEND, 0x000B_2080);
    assert_eq!(IOCTL_MOUSE_SEND, 0x000F_2080);
    assert_eq!(DeviceKind::Keyboard.control_code(), IOCTL_KEYBOARD_SEND);
    assert_eq!(DeviceKind::Mouse.control_code(), IOCTL_MOUSE_SEND);
}

#[test]
fn device_paths() {
    assert_eq!(DeviceKind::Keyboard.device_path(), "\\\\.\\AllunoHInpuDKbd\0");
    assert_eq!(DeviceKind::Mouse.device_path(), "\\\\.\\AllunoHInpuDMou\0");
}

#[test]
fn open_keeps_valid_handles_only() {
    assert!(AllunoHinpud::from_created_handle(DeviceKind::Keyboard, None).is_none());
    assert!(AllunoHinpud::from_created_handle(DeviceKind::Mouse, Some(INVALID_HANDLE_VALUE)).is_none());
    let dev = AllunoHinpud::from_created_handle(DeviceKind::Mouse, Some(88)).unwrap();
    assert_eq!(dev.handle(), 88);
    assert_eq!(dev.control_code(), IOCTL_MOUSE_SEND);
    assert!(AllunoHinpudKeyboard::from_created_handle(Some(-1)).is_none());
    assert!(AllunoHinpudMouse::from_created_handle(Some(-1)).is_none());
    let kbd = AllunoHinpudKeyboard::from_created_handle(Some(9)).unwrap();
    assert_eq!(kbd.device().handle(), 9);
    assert_eq!(kbd.device().control_code(), IOCTL_KEYBOARD_SEND);
    let mou = AllunoHinpudMouse::from_created_handle(Some(10)).unwrap();
    assert_eq!(mou.device().control_code(), IOCTL_MOUSE_SEND);
}

#[test]
fn null_and_invalid_handles_are_not_closed() {
    let null = AllunoHinpud::from_created_handle(DeviceKind::Keyboard, Some(0)).unwrap();
    assert!(!null.should_close());
    let real = AllunoHinpud::from_created_handle(DeviceKind::Keyboard, Some(7)).unwrap();
    assert!(real.should_close());
}

#[test]
fn keyboard_record_layout() {
    let data = KeyboardInputData {
        unit_id: 0x0102,
        make_code: 0x0304,
        flags: 0x0506,
        reserved: 0x0708,
        extra_information: 0x090A_0B0C,
    };
    let bytes = data.to_bytes();
    assert_eq!(bytes.len(), KEYBOARD_INPUT_DATA_SIZE);
    assert_eq!(bytes, vec![0x02, 0x01, 0x04, 0x03, 0x06, 0x05, 0x08, 0x07, 0x0C, 0x0B, 0x0A, 0x09]);
    // The driver reads every field back at its C offset.
    assert_eq!(u16::from_le_bytes([bytes[2], bytes[3]]), data.make_code);
    assert_eq!(u32::from_le_bytes([bytes[8], bytes[9], bytes[10], bytes[11]]), data.extra_information);
}

#[test]
fn mouse_record_layout() {
    let data = MouseInputData {
        unit_id: 1,
        flags: 2,
        button_flags: 3,
        button_data: -2,
        raw_buttons: 0x1122_3344,
        last_x: -1,
        last_y: 0x0102_0304,
        extra_information: 0xAABB_CCDD,
    };
    let bytes = data.to_bytes();
    assert_eq!(bytes.len(), MOUSE_INPUT_DATA_SIZE);
    assert_eq!(
        bytes,
        vec![
            1, 0, 2, 0, 3, 0, 0xFE, 0xFF, 0x44, 0x33, 0x22, 0x11, 0xFF, 0xFF, 0xFF, 0xFF, 0x04,
            0x03, 0x02, 0x01, 0xDD, 0xCC, 0xBB, 0xAA,
        ]
    );
    assert_eq!(i16::from_le_bytes([bytes[6], bytes[7]]), data.button_data);
    assert_eq!(i32::from_le_bytes([bytes[12], bytes[13], bytes[14], bytes[15]]), data.last_x);
}

#[test]
fn record_constructors() {
    let key = KeyboardInputData::key_event(scan_code::A, key_flags::BREAK);
    assert_eq!(
        key,
        KeyboardInputData { unit_id: 0, make_code: 0x1E, flags: 1, reserved: 0, extra_information: 0 }
    );
    let mv = MouseInputData::movement(-5, 6, mouse_move_flags::MOVE_ABSOLUTE);
    assert_eq!((mv.flags, mv.last_x, mv.last_y, mv.button_flags), (1, -5, 6, 0));
    let wheel = MouseInputData::button_event(mouse_button_flags::WHEEL, 240);
    assert_eq!((wheel.flags, wheel.button_flags, wheel.button_data, wheel.last_x), (0, 0x400, 240, 0));
}

#[test]
fn send_raw_copies_the_buffer() {
    let dev = AllunoHinpud::from_created_handle(DeviceKind::Keyboard, Some(3)).unwrap();
    let request = dev.send_raw(&[9, 8, 7]);
    assert_eq!(request.handle, 3);
    assert_eq!(request.control_code, IOCTL_KEYBOARD_SEND);
    assert_eq!(request.input, vec![9, 8, 7]);
    assert_eq!(request.input_len, 3);
    assert_eq!(dev.send_raw(&[]).input_len, 0);
}

#[test]
fn untyped_handle_operations() {
    let dev = AllunoHinpud::from_created_handle(DeviceKind::Mouse, Some(4)).unwrap();
    assert_eq!(dev.press_key(scan_code::ENTER).input, vec![0, 0, 0x1C, 0, 0, 0, 0, 0, 0, 0, 0, 0]);
    assert_eq!(dev.release_key(scan_code::ENTER).input[4], 1);
    let mv = dev.send_move(10, -10, false);
    assert_eq!(mv.control_code, IOCTL_MOUSE_SEND);
    assert_eq!(&mv.input[2..4], &[0, 0]);
    assert_eq!(&mv.input[12..20], &[10, 0, 0, 0, 0xF6, 0xFF, 0xFF, 0xFF]);
    let click = dev.send_button(mouse_button_flags::LEFT_BUTTON_DOWN);
    assert_eq!(&click.input[4..8], &[1, 0, 0, 0]);
    assert_eq!(&dev.send_hwheel(-1).input[4..8], &[0x00, 0x08, 0xFF, 0xFF]);
}

#[test]
fn send_key_stops_after_a_refused_press() {
    let dev = AllunoHinpud::from_created_handle(DeviceKind::Keyboard, Some(5)).unwrap();
    let mut transfer = dev.send_key(scan_code::A);
    let press = transfer.next_request().unwrap().input.clone();
    assert_eq!(press[4], 0);
    transfer.record(false);
    assert!(transfer.next_request().is_none());
    assert!(transfer.has_failed());
    assert!(!transfer.is_complete());
    transfer.record(true);
    assert!(transfer.next_request().is_none());
    assert!(!transfer.is_complete());
}

#[test]
fn send_key_fails_on_a_refused_release() {
    let kbd = AllunoHinpudKeyboard::from_created_handle(Some(5)).unwrap();
    let mut transfer = kbd.send_key(scan_code::B);
    transfer.record(true);
    let release = transfer.next_request().unwrap();
    assert_eq!(release.input, vec![0, 0, 0x30, 0, 1, 0, 0, 0, 0, 0, 0, 0]);
    transfer.record(false);
    assert!(transfer.has_failed());
    assert!(transfer.next_request().is_none());
}

#[test]
fn empty_transfer_is_complete() {
    let mut transfer = Transfer::new(Vec::new());
    assert!(transfer.next_request().is_none());
    assert!(transfer.is_complete());
    transfer.record(false);
    assert!(transfer.is_complete());
    assert!(!transfer.has_failed());
}

#[test]
fn key_events_are_classified() {
    assert_eq!(key_transition(0x0100), KeyTransition::Down);
    assert_eq!(key_transition(0x0104), KeyTransition::Down);
    assert_eq!(key_transition(0x0101), KeyTransition::Up);
    assert_eq!(key_transition(0x0105), KeyTransition::Up);
    assert_eq!(KeyTransition::Down.label(), "DOWN");
    assert_eq!(KeyTransition::Up.label(), "UP  ");
}

#[test]
fn mouse_events_are_classified() {
    let cases = [
        (0x0200, MouseAction::Move, "MOVE"),
        (0x0201, MouseAction::LeftDown, "L-DOWN"),
        (0x0202, MouseAction::LeftUp, "L-UP"),
        (0x0204, MouseAction::RightDown, "R-DOWN"),
        (0x0205, MouseAction::RightUp, "R-UP"),
        (0x0207, MouseAction::MiddleDown, "M-DOWN"),
        (0x0208, MouseAction::MiddleUp, "M-UP"),
        (0x020A, MouseAction::Wheel, "WHEEL"),
        (0x020E, MouseAction::Unknown, "???"),
    ];
    for (message, action, label) in cases {
        assert_eq!(mouse_action(message), action);
        assert_eq!(action.label(), label);
    }
}

#[test]
fn monitor_counts_only_while_counting() {
    let mut monitor = EventMonitor::new();
    let seen = monitor.observe_key(0x10, 0x0100);
    assert!(!seen.hardware);
    assert_eq!(seen.transition, KeyTransition::Down);
    assert_eq!(monitor.counts, zero_counts());
    monitor.set_counting(true);
    assert!(monitor.observe_key(0x00, 0x0101).hardware);
    assert!(!monitor.observe_key(0x11, 0x0101).hardware);
    assert!(monitor.observe_mouse(0x00, 0x0201).hardware);
    assert!(!monitor.observe_mouse(0x03, 0x0202).hardware);
    assert!(!monitor.observe_mouse(0x01, 0x0200).hardware);
    assert_eq!(
        monitor.counts,
        EventCounts { keyboard_hardware: 1, keyboard_injected: 1, mouse_hardware: 1, mouse_injected: 2 }
    );
    monitor.set_counting(false);
    monitor.observe_mouse(0x00, 0x0201);
    assert_eq!(monitor.counts.mouse_hardware, 1);
}

#[test]
fn mouse_moves_are_reported_only_while_counting() {
    let mut monitor = EventMonitor::new();
    assert!(!monitor.observe_mouse(0, 0x0200).reported);
    assert!(monitor.observe_mouse(0, 0x0201).reported);
    monitor.set_counting(true);
    assert!(monitor.observe_mouse(0, 0x0200).reported);
}

#[test]
fn counters_wrap_around() {
    let mut counts = zero_counts();
    counts.keyboard_hardware = u32::MAX;
    counts.record_key(true);
    assert_eq!(counts.keyboard_hardware, 0);
    counts.record_mouse(false);
    assert_eq!(counts.mouse_injected, 1);
}

#[test]
fn verdicts() {
    let hw = EventCounts { keyboard_hardware: 4, keyboard_injected: 0, mouse_hardware: 9, mouse_injected: 0 };
    let inj = EventCounts { keyboard_hardware: 0, keyboard_injected: 4, mouse_hardware: 0, mouse_injected: 6 };
    let mixed = EventCounts { keyboard_hardware: 4, keyboard_injected: 1, mouse_hardware: 9, mouse_injected: 0 };

    let s = summarize(TestMethod::Driver, hw);
    assert_eq!((s.total_hardware, s.total_injected, s.total), (13, 0, 13));
    assert_eq!(s.verdict, Verdict::AllHardware);
    assert_eq!(summarize(TestMethod::Driver, mixed).verdict, Verdict::SomeInjected);
    assert_eq!(summarize(TestMethod::Driver, inj).verdict, Verdict::SomeInjected);
    assert_eq!(summarize(TestMethod::Driver, zero_counts()).verdict, Verdict::NoEvents);

    let s = summarize(TestMethod::SendInput, inj);
    assert_eq!((s.total_hardware, s.total_injected, s.total), (0, 10, 10));
    assert_eq!(s.verdict, Verdict::AllInjected);
    assert_eq!(summarize(TestMethod::SendInput, mixed).verdict, Verdict::UnexpectedHardware);
    assert_eq!(summarize(TestMethod::SendInput, zero_counts()).verdict, Verdict::UnexpectedHardware);

    assert_eq!(TestMethod::Driver.name(), "AllunoHInpuD");
    assert_eq!(TestMethod::SendInput.name(), "SendInput");
}

#[test]
fn modes() {
    assert_eq!(parse_mode("--driver"), Mode::Driver);
    assert_eq!(parse_mode("--sendinput"), Mode::SendInput);
    assert_eq!(parse_mode(""), Mode::Monitor);
    assert_eq!(parse_mode("--Driver"), Mode::Monitor);
    assert_eq!(parse_mode("--driver "), Mode::Monitor);
}

#[test]
fn driver_test_leaves_input_as_found() {
    let plan = driver_test_plan();
    assert_eq!(plan.len(), 16);
    let (mut x, mut y, mut wheel, mut hwheel) = (0i64, 0i64, 0i64, 0i64);
    for step in &plan {
        match step.action {
            DriverAction::Move { x: dx, y: dy, absolute } => {
                assert!(!absolute);
                x += dx as i64;
                y += dy as i64;
            }
            DriverAction::Wheel { delta } => wheel += delta as i64,
            DriverAction::HWheel { delta } => hwheel += delta as i64,
            _ => {}
        }
    }
    assert_eq!((x, y, wheel, hwheel), (0, 0, 0, 0));
    assert_eq!(plan[0].topic, "RShift");
    assert_eq!(plan[0].action, DriverAction::KeyRaw { scan_code: 0x36, flags: 0 });
    assert_eq!(plan[1].action, DriverAction::KeyRaw { scan_code: 0x36, flags: 1 });
    assert_eq!(plan[15].section, Section::ExtendedKeys);
    assert_eq!(plan[15].action, DriverAction::KeyRaw { scan_code: 0x1D, flags: 3 });
    assert_eq!(plan[10].label, "up");
    assert_eq!(plan[10].action, DriverAction::Wheel { delta: 120 });
}

#[test]
fn baseline_test_leaves_input_as_found() {
    let plan = baseline_test_plan();
    assert_eq!(plan.len(), 8);
    assert_eq!(plan[1].input, SyntheticInput::Key { scan_code: 0x36, key_up: true });
    assert_eq!(plan[4].input, SyntheticInput::Mouse { flags: MOUSEEVENTF_MOVE, dx: 1, dy: 1 });
    assert_eq!(plan[5].input, SyntheticInput::Mouse { flags: MOUSEEVENTF_MOVE, dx: -1, dy: -1 });
    assert_eq!(plan[6].input, SyntheticInput::Mouse { flags: MOUSEEVENTF_LEFTDOWN, dx: 0, dy: 0 });
    assert_eq!(plan[7].input, SyntheticInput::Mouse { flags: MOUSEEVENTF_LEFTUP, dx: 0, dy: 0 });
    assert_eq!(sendinput_key_flags(false), 0x0008);
    assert_eq!(sendinput_key_flags(true), 0x000A);
}

#[test]
fn section_headers() {
    assert_eq!(Section::Keyboard.header(), "--- Keyboard ---");
    assert_eq!(Section::Mouse.header(), "--- Mouse ---");
    assert_eq!(Section::ExtendedKeys.header(), "--- Extended Keys ---");
}
