//! Handles on the driver's two control devices, and the requests they send.
//!
//! A handle is its raw Windows handle value and the control code of its
//! device. Opening a device (`CreateFileA` on [`DeviceKind::device_path`])
//! and performing a request (`DeviceIoControl`) are left to the caller; the
//! methods here decide what to open, whether an open succeeded, what each
//! operation sends, and whether a handle must be closed.

use vstd::prelude::*;

use crate::ioctl::{IOCTL_KEYBOARD_SEND, IOCTL_MOUSE_SEND};
use crate::key_flags;
use crate::mouse_button_flags;
use crate::mouse_move_flags;
use crate::transfer::Transfer;
use crate::wire::{
    button_record, decode_mouse, key_record, lemma_movement_carries_coordinates, movement_record, KeyboardInputData, MouseInputData,
    KEYBOARD_INPUT_DATA_SIZE, MOUSE_INPUT_DATA_SIZE,
};

verus! {

/// The raw value of Windows' `INVALID_HANDLE_VALUE`.
pub const INVALID_HANDLE_VALUE: isize = -1;

proof fn lemma_move_flag_values()
    ensures
        mouse_move_flags::MOVE_ABSOLUTE | mouse_move_flags::VIRTUAL_DESKTOP == 3u16,
        mouse_move_flags::MOVE_RELATIVE == 0u16,
{
    assert(1u16 | 2u16 == 3u16) by (bit_vector);
}

/// The driver's two control devices.
#[derive(Clone, Copy, Debug, PartialEq, Eq, Structural)]
pub enum DeviceKind {
    Keyboard,
    Mouse,
}

impl DeviceKind {
    /// The control code that the device answers.
    pub open spec fn spec_control_code(self) -> u32 {
        match self {
            DeviceKind::Keyboard => IOCTL_KEYBOARD_SEND,
            DeviceKind::Mouse => IOCTL_MOUSE_SEND,
        }
    }

    /// The NUL-terminated path of the device, as `CreateFileA` takes it.
    pub open spec fn spec_device_path(self) -> Seq<char> {
        match self {
            DeviceKind::Keyboard => "\\\\.\\AllunoHInpuDKbd\0"@,
            DeviceKind::Mouse => "\\\\.\\AllunoHInpuDMou\0"@,
        }
    }

    /// The control code that the device answers.
    pub fn control_code(&self) -> (code: u32)
        ensures
            code == self.spec_control_code(),
    {
        match self {
            DeviceKind::Keyboard => IOCTL_KEYBOARD_SEND,
            DeviceKind::Mouse => IOCTL_MOUSE_SEND,
        }
    }

    /// The NUL-terminated path of the device, as `CreateFileA` takes it.
    pub fn device_path(&self) -> (path: &'static str)
        ensures
            path@ == self.spec_device_path(),
    {
        match self {
            DeviceKind::Keyboard => "\\\\.\\AllunoHInpuDKbd\0",
            DeviceKind::Mouse => "\\\\.\\AllunoHInpuDMou\0",
        }
    }
}

/// What an [`IoRequest`] holds.
pub struct IoRequestView {
    pub handle: isize,
    pub control_code: u32,
    pub input: Seq<u8>,
    pub input_len: u32,
}

/// One `DeviceIoControl` call: the device handle, the control code, the input
/// buffer with the length passed for it, and no output buffer. The call
/// answers with the number of bytes that the driver consumed.
pub struct IoRequest {
    pub handle: isize,
    pub control_code: u32,
    pub input: Vec<u8>,
    pub input_len: u32,
}

impl View for IoRequest {
    type V = IoRequestView;

    open spec fn view(&self) -> IoRequestView {
        IoRequestView {
            handle: self.handle,
            control_code: self.control_code,
            input: self.input@,
            input_len: self.input_len,
        }
    }
}

/// A handle on one of the driver's control devices.
pub struct AllunoHinpud {
    handle: isize,
    ioctl: u32,
}

impl AllunoHinpud {
    /// The raw handle value.
    pub closed spec fn handle_value(self) -> isize {
        self.handle
    }

    /// The control code that this handle's requests carry.
    pub closed spec fn control_code_value(self) -> u32 {
        self.ioctl
    }

    /// The request that sends `input` through this handle; the length passed
    /// is the buffer's length taken modulo 2^32.
    pub open spec fn spec_request(self, input: Seq<u8>) -> IoRequestView {
        IoRequestView {
            handle: self.handle_value(),
            control_code: self.control_code_value(),
            input,
            input_len: input.len() as u32,
        }
    }

    /// Finishes opening a device of kind `kind`, given what `CreateFileA`
    /// returned (`None` for a failure). The handle is kept unless the call
    /// failed or returned `INVALID_HANDLE_VALUE`.
    pub fn from_created_handle(kind: DeviceKind, created: Option<isize>) -> (device: Option<Self>)
        ensures
            device is Some <==> (created matches Some(h) && h != INVALID_HANDLE_VALUE),
            device matches Some(d) ==> d.handle_value() == created->0 && d.control_code_value()
                == kind.spec_control_code(),
    {
        match created {
            Some(h) => {
                if h != INVALID_HANDLE_VALUE {
                    Some(AllunoHinpud { handle: h, ioctl: kind.control_code() })
                } else {
                    None
                }
            },
            None => None,
        }
    }

    /// The raw handle value.
    pub fn handle(&self) -> (h: isize)
        ensures
            h == self.handle_value(),
    {
        self.handle
    }

    /// The control code that this handle's requests carry.
    pub fn control_code(&self) -> (code: u32)
        ensures
            code == self.control_code_value(),
    {
        self.ioctl
    }

    /// Whether dropping the handle must close it: a handle that is null or
    /// `INVALID_HANDLE_VALUE` is not closed.
    pub fn should_close(&self) -> (close: bool)
        ensures
            close == !(self.handle_value() == 0 || self.handle_value() == INVALID_HANDLE_VALUE),
    {
        !(self.handle == 0 || self.handle == INVALID_HANDLE_VALUE)
    }

    /// Sends raw input data to the driver; the answer is the number of bytes
    /// consumed.
    pub fn send_raw(&self, data: &[u8]) -> (request: IoRequest)
        ensures
            request@ == self.spec_request(data@),
    {
        let len: u32 = data.len() as u32;
        IoRequest {
            handle: self.handle,
            control_code: self.ioctl,
            input: vstd::slice::slice_to_vec(data),
            input_len: len,
        }
    }

    /// Sends a raw keyboard event (single press or release).
    pub fn send_key_raw(&self, scan_code: u16, flags: u16) -> (request: IoRequest)
        ensures
            request@ == self.spec_request(key_record(scan_code, flags).spec_bytes()),
            request.input@.len() == KEYBOARD_INPUT_DATA_SIZE,
    {
        let data = KeyboardInputData::key_event(scan_code, flags);
        let bytes = data.to_bytes();
        self.send_raw(bytes.as_slice())
    }

    /// Presses a key (key down).
    pub fn press_key(&self, scan_code: u16) -> (request: IoRequest)
        ensures
            request@ == self.spec_request(key_record(scan_code, key_flags::KEY_MAKE).spec_bytes()),
            request.input@.len() == KEYBOARD_INPUT_DATA_SIZE,
    {
        self.send_key_raw(scan_code, key_flags::KEY_MAKE)
    }

    /// Releases a key (key up).
    pub fn release_key(&self, scan_code: u16) -> (request: IoRequest)
        ensures
            request@ == self.spec_request(key_record(scan_code, key_flags::BREAK).spec_bytes()),
            request.input@.len() == KEYBOARD_INPUT_DATA_SIZE,
    {
        self.send_key_raw(scan_code, key_flags::BREAK)
    }

    /// Sends a key (press, then release): a transfer of the press request
    /// followed by the release request.
    pub fn send_key(&self, scan_code: u16) -> (transfer: Transfer)
        ensures
            transfer@.requests == seq![
                self.spec_request(key_record(scan_code, key_flags::KEY_MAKE).spec_bytes()),
                self.spec_request(key_record(scan_code, key_flags::BREAK).spec_bytes()),
            ],
            transfer@.sent == 0,
            !transfer@.failed,
    {
        let mut requests: Vec<IoRequest> = Vec::new();
        requests.push(self.press_key(scan_code));
        requests.push(self.release_key(scan_code));
        Transfer::new(requests)
    }

    /// The movement flags of `send_move`: absolute moves address the whole
    /// virtual desktop, the others are relative.
    pub open spec fn spec_move_flags(absolute: bool) -> u16 {
        if absolute {
            mouse_move_flags::MOVE_ABSOLUTE | mouse_move_flags::VIRTUAL_DESKTOP
        } else {
            mouse_move_flags::MOVE_RELATIVE
        }
    }

    /// Sends a mouse move event: with `absolute` false, `(x, y)` is an offset
    /// from the current position; with `absolute` true, coordinates in
    /// 0..=65535 over the virtual desktop.
    pub fn send_move(&self, x: i32, y: i32, absolute: bool) -> (request: IoRequest)
        ensures
            request@ == self.spec_request(
                movement_record(x, y, Self::spec_move_flags(absolute)).spec_bytes(),
            ),
            request.input@.len() == MOUSE_INPUT_DATA_SIZE,
            decode_mouse(request.input@).last_x == x,
            decode_mouse(request.input@).last_y == y,
            decode_mouse(request.input@).flags == (if absolute {
                3u16
            } else {
                0u16
            }),
            decode_mouse(request.input@).button_flags == 0,
    {
        proof {
            lemma_move_flag_values();
            lemma_movement_carries_coordinates(x, y, Self::spec_move_flags(absolute));
        }
        let flags = if absolute {
            mouse_move_flags::MOVE_ABSOLUTE | mouse_move_flags::VIRTUAL_DESKTOP
        } else {
            mouse_move_flags::MOVE_RELATIVE
        };
        self.send_move_raw(x, y, flags)
    }

    fn send_move_raw(&self, x: i32, y: i32, flags: u16) -> (request: IoRequest)
        ensures
            request@ == self.spec_request(movement_record(x, y, flags).spec_bytes()),
            request.input@.len() == MOUSE_INPUT_DATA_SIZE,
    {
        let data = MouseInputData::movement(x, y, flags);
        let bytes = data.to_bytes();
        self.send_raw(bytes.as_slice())
    }

    /// Sends a mouse button event.
    pub fn send_button(&self, button_flags: u16) -> (request: IoRequest)
        ensures
            request@ == self.spec_request(button_record(button_flags, 0).spec_bytes()),
            request.input@.len() == MOUSE_INPUT_DATA_SIZE,
    {
        self.send_button_data(button_flags, 0)
    }

    /// Sends a vertical wheel rotation (positive: away from the user).
    pub fn send_wheel(&self, delta: i16) -> (request: IoRequest)
        ensures
            request@ == self.spec_request(
                button_record(mouse_button_flags::WHEEL, delta).spec_bytes(),
            ),
            request.input@.len() == MOUSE_INPUT_DATA_SIZE,
    {
        self.send_button_data(mouse_button_flags::WHEEL, delta)
    }

    /// Sends a horizontal wheel rotation (positive: to the right).
    pub fn send_hwheel(&self, delta: i16) -> (request: IoRequest)
        ensures
            request@ == self.spec_request(
                button_record(mouse_button_flags::HWHEEL, delta).spec_bytes(),
            ),
            request.input@.len() == MOUSE_INPUT_DATA_SIZE,
    {
        self.send_button_data(mouse_button_flags::HWHEEL, delta)
    }

    fn send_button_data(&self, button_flags: u16, button_data: i16) -> (request: IoRequest)
        ensures
            request@ == self.spec_request(button_record(button_flags, button_data).spec_bytes()),
            request.input@.len() == MOUSE_INPUT_DATA_SIZE,
    {
        let data = MouseInputData::button_event(button_flags, button_data);
        let bytes = data.to_bytes();
        self.send_raw(bytes.as_slice())
    }
}

/// A handle on the keyboard control device: its requests always carry the
/// keyboard control code and keyboard records.
pub struct AllunoHinpudKeyboard {
    device: AllunoHinpud,
}

impl AllunoHinpudKeyboard {
    #[verifier::type_invariant]
    spec fn on_keyboard_device(self) -> bool {
        self.device.control_code_value() == IOCTL_KEYBOARD_SEND
    }

    /// The underlying handle.
    pub closed spec fn device_value(self) -> AllunoHinpud {
        self.device
    }

    /// Finishes opening the keyboard device, given what `CreateFileA`
    /// returned for [`DeviceKind::Keyboard`] (`None` for a failure).
    pub fn from_created_handle(created: Option<isize>) -> (keyboard: Option<Self>)
        ensures
            keyboard is Some <==> (created matches Some(h) && h != INVALID_HANDLE_VALUE),
            keyboard matches Some(k) ==> k.device_value().handle_value() == created->0
                && k.device_value().control_code_value() == IOCTL_KEYBOARD_SEND,
    {
        match AllunoHinpud::from_created_handle(DeviceKind::Keyboard, created) {
            Some(device) => Some(AllunoHinpudKeyboard { device }),
            None => None,
        }
    }

    /// The underlying handle.
    pub fn device(&self) -> (device: &AllunoHinpud)
        ensures
            *device == self.device_value(),
            device.control_code_value() == IOCTL_KEYBOARD_SEND,
    {
        proof {
            use_type_invariant(self);
        }
        &self.device
    }

    /// Sends a raw keyboard event (single press or release).
    pub fn send_key_raw(&self, scan_code: u16, flags: u16) -> (request: IoRequest)
        ensures
            request@ == self.device_value().spec_request(key_record(scan_code, flags).spec_bytes()),
            request.control_code == IOCTL_KEYBOARD_SEND,
            request.input@.len() == KEYBOARD_INPUT_DATA_SIZE,
    {
        proof {
            use_type_invariant(self);
        }
        self.device.send_key_raw(scan_code, flags)
    }

    /// Presses a key (key down).
    pub fn press_key(&self, scan_code: u16) -> (request: IoRequest)
        ensures
            request@ == self.device_value().spec_request(
                key_record(scan_code, key_flags::KEY_MAKE).spec_bytes(),
            ),
            request.control_code == IOCTL_KEYBOARD_SEND,
            request.input@.len() == KEYBOARD_INPUT_DATA_SIZE,
    {
        proof {
            use_type_invariant(self);
        }
        self.device.press_key(scan_code)
    }

    /// Releases a key (key up).
    pub fn release_key(&self, scan_code: u16) -> (request: IoRequest)
        ensures
            request@ == self.device_value().spec_request(
                key_record(scan_code, key_flags::BREAK).spec_bytes(),
            ),
            request.control_code == IOCTL_KEYBOARD_SEND,
            request.input@.len() == KEYBOARD_INPUT_DATA_SIZE,
    {
        proof {
            use_type_invariant(self);
        }
        self.device.release_key(scan_code)
    }

    /// Sends a key (press, then release).
    pub fn send_key(&self, scan_code: u16) -> (transfer: Transfer)
        ensures
            transfer@.requests == seq![
                self.device_value().spec_request(
                    key_record(scan_code, key_flags::KEY_MAKE).spec_bytes(),
                ),
                self.device_value().spec_request(
                    key_record(scan_code, key_flags::BREAK).spec_bytes(),
                ),
            ],
            transfer@.sent == 0,
            !transfer@.failed,
            self.device_value().control_code_value() == IOCTL_KEYBOARD_SEND,
    {
        proof {
            use_type_invariant(self);
        }
        self.device.send_key(scan_code)
    }
}

/// A handle on the mouse control device: its requests always carry the mouse
/// control code and mouse records.
pub struct AllunoHinpudMouse {
    device: AllunoHinpud,
}

impl AllunoHinpudMouse {
    #[verifier::type_invariant]
    spec fn on_mouse_device(self) -> bool {
        self.device.control_code_value() == IOCTL_MOUSE_SEND
    }

    /// The underlying handle.
    pub closed spec fn device_value(self) -> AllunoHinpud {
        self.device
    }

    /// Finishes opening the mouse device, given what `CreateFileA` returned
    /// for [`DeviceKind::Mouse`] (`None` for a failure).
    pub fn from_created_handle(created: Option<isize>) -> (mouse: Option<Self>)
        ensures
            mouse is Some <==> (created matches Some(h) && h != INVALID_HANDLE_VALUE),
            mouse matches Some(m) ==> m.device_value().handle_value() == created->0
                && m.device_value().control_code_value() == IOCTL_MOUSE_SEND,
    {
        match AllunoHinpud::from_created_handle(DeviceKind::Mouse, created) {
            Some(device) => Some(AllunoHinpudMouse { device }),
            None => None,
        }
    }

    /// The underlying handle.
    pub fn device(&self) -> (device: &AllunoHinpud)
        ensures
            *device == self.device_value(),
            device.control_code_value() == IOCTL_MOUSE_SEND,
    {
        proof {
            use_type_invariant(self);
        }
        &self.device
    }

    /// Sends a mouse move event (see [`AllunoHinpud::send_move`]).
    pub fn send_move(&self, x: i32, y: i32, absolute: bool) -> (request: IoRequest)
        ensures
            request@ == self.device_value().spec_request(
                movement_record(x, y, AllunoHinpud::spec_move_flags(absolute)).spec_bytes(),
            ),
            request.control_code == IOCTL_MOUSE_SEND,
            request.input@.len() == MOUSE_INPUT_DATA_SIZE,
            decode_mouse(request.input@).last_x == x,
            decode_mouse(request.input@).last_y == y,
            decode_mouse(request.input@).flags == (if absolute {
                3u16
            } else {
                0u16
            }),
            decode_mouse(request.input@).button_flags == 0,
    {
        proof {
            use_type_invariant(self);
        }
        self.device.send_move(x, y, absolute)
    }

    /// Sends a mouse button event.
    pub fn send_button(&self, button_flags: u16) -> (request: IoRequest)
        ensures
            request@ == self.device_value().spec_request(
                button_record(button_flags, 0).spec_bytes(),
            ),
            request.control_code == IOCTL_MOUSE_SEND,
            request.input@.len() == MOUSE_INPUT_DATA_SIZE,
    {
        proof {
            use_type_invariant(self);
        }
        self.device.send_button(button_flags)
    }

    /// Sends a vertical wheel rotation (positive: away from the user).
    pub fn send_wheel(&self, delta: i16) -> (request: IoRequest)
        ensures
            request@ == self.device_value().spec_request(
                button_record(mouse_button_flags::WHEEL, delta).spec_bytes(),
            ),
            request.control_code == IOCTL_MOUSE_SEND,
            request.input@.len() == MOUSE_INPUT_DATA_SIZE,
    {
        proof {
            use_type_invariant(self);
        }
        self.device.send_wheel(delta)
    }

    /// Sends a horizontal wheel rotation (positive: to the right).
    pub fn send_hwheel(&self, delta: i16) -> (request: IoRequest)
        ensures
            request@ == self.device_value().spec_request(
                button_record(mouse_button_flags::HWHEEL, delta).spec_bytes(),
            ),
            request.control_code == IOCTL_MOUSE_SEND,
            request.input@.len() == MOUSE_INPUT_DATA_SIZE,
    {
        proof {
            use_type_invariant(self);
        }
        self.device.send_hwheel(delta)
    }
}

} // verus!
