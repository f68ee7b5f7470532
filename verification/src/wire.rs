//! The records that the driver reads: kernel `KEYBOARD_INPUT_DATA` and
//! `MOUSE_INPUT_DATA`.
//!
//! Each record goes over the wire as its C layout: every field at its C
//! offset, little-endian (the byte order of every Windows target), with no
//! padding, since every field sits at a multiple of its own size.

use vstd::prelude::*;

verus! {

/// Size in bytes of a `KEYBOARD_INPUT_DATA` record.
pub const KEYBOARD_INPUT_DATA_SIZE: usize = 12;

/// Size in bytes of a `MOUSE_INPUT_DATA` record.
pub const MOUSE_INPUT_DATA_SIZE: usize = 24;

/// Little-endian bytes of a 16-bit value.
pub open spec fn le_u16(x: u16) -> Seq<u8> {
    seq![(x % 0x100) as u8, (x / 0x100) as u8]
}

/// Little-endian bytes of a 32-bit value.
pub open spec fn le_u32(x: u32) -> Seq<u8> {
    seq![
        (x % 0x100) as u8,
        ((x / 0x100) % 0x100) as u8,
        ((x / 0x1_0000) % 0x100) as u8,
        (x / 0x100_0000) as u8,
    ]
}

/// The 16-bit little-endian value stored at offset `at` of `b`.
pub open spec fn read_u16(b: Seq<u8>, at: int) -> u16 {
    (b[at] + b[at + 1] * 0x100) as u16
}

/// The 32-bit little-endian value stored at offset `at` of `b`.
pub open spec fn read_u32(b: Seq<u8>, at: int) -> u32 {
    (b[at] + b[at + 1] * 0x100 + b[at + 2] * 0x1_0000 + b[at + 3] * 0x100_0000) as u32
}

proof fn lemma_read_u16(b: Seq<u8>, at: int, x: u16)
    requires
        0 <= at,
        at + 2 <= b.len(),
        b[at] == (x % 0x100) as u8,
        b[at + 1] == (x / 0x100) as u8,
    ensures
        read_u16(b, at) == x,
{
}

proof fn lemma_read_u32(b: Seq<u8>, at: int, x: u32)
    requires
        0 <= at,
        at + 4 <= b.len(),
        b[at] == (x % 0x100) as u8,
        b[at + 1] == ((x / 0x100) % 0x100) as u8,
        b[at + 2] == ((x / 0x1_0000) % 0x100) as u8,
        b[at + 3] == (x / 0x100_0000) as u8,
    ensures
        read_u32(b, at) == x,
{
}

proof fn lemma_signed_u16(x: i16)
    ensures
        ((x as u16) as i16) == x,
{
    assert(((x as u16) as i16) == x) by (bit_vector);
}

proof fn lemma_signed_u32(x: i32)
    ensures
        ((x as u32) as i32) == x,
{
    assert(((x as u32) as i32) == x) by (bit_vector);
}

fn push_u16(out: &mut Vec<u8>, x: u16)
    ensures
        final(out)@ == old(out)@ + le_u16(x),
{
    out.push((x % 0x100) as u8);
    out.push((x / 0x100) as u8);
    assert(out@ =~= old(out)@ + le_u16(x));
}

fn push_u32(out: &mut Vec<u8>, x: u32)
    ensures
        final(out)@ == old(out)@ + le_u32(x),
{
    out.push((x % 0x100) as u8);
    out.push(((x / 0x100) % 0x100) as u8);
    out.push(((x / 0x1_0000) % 0x100) as u8);
    out.push((x / 0x100_0000) as u8);
    assert(out@ =~= old(out)@ + le_u32(x));
}

/// The keyboard record of one key transition: the scan code and the key
/// flags, every other field zero.
pub open spec fn key_record(scan_code: u16, flags: u16) -> KeyboardInputData {
    KeyboardInputData { unit_id: 0, make_code: scan_code, flags, reserved: 0, extra_information: 0 }
}

/// The mouse record of a movement: the movement flags and the coordinates,
/// every other field zero.
pub open spec fn movement_record(x: i32, y: i32, flags: u16) -> MouseInputData {
    MouseInputData {
        unit_id: 0,
        flags,
        button_flags: 0,
        button_data: 0,
        raw_buttons: 0,
        last_x: x,
        last_y: y,
        extra_information: 0,
    }
}

/// The mouse record of a button or wheel event: the button flags and the
/// button data (the wheel rotation), every other field zero.
pub open spec fn button_record(button_flags: u16, button_data: i16) -> MouseInputData {
    MouseInputData {
        unit_id: 0,
        flags: 0,
        button_flags,
        button_data,
        raw_buttons: 0,
        last_x: 0,
        last_y: 0,
        extra_information: 0,
    }
}

/// Keyboard input data (kernel `KEYBOARD_INPUT_DATA`).
#[derive(Clone, Copy, Debug, PartialEq, Eq, Structural)]
pub struct KeyboardInputData {
    pub unit_id: u16,
    pub make_code: u16,
    pub flags: u16,
    pub reserved: u16,
    pub extra_information: u32,
}

/// Mouse input data (kernel `MOUSE_INPUT_DATA`).
#[derive(Clone, Copy, Debug, PartialEq, Eq, Structural)]
pub struct MouseInputData {
    pub unit_id: u16,
    pub flags: u16,
    pub button_flags: u16,
    pub button_data: i16,
    pub raw_buttons: u32,
    pub last_x: i32,
    pub last_y: i32,
    pub extra_information: u32,
}

impl KeyboardInputData {
    /// The bytes of this record as the driver reads them.
    pub open spec fn spec_bytes(self) -> Seq<u8> {
        le_u16(self.unit_id) + le_u16(self.make_code) + le_u16(self.flags) + le_u16(self.reserved)
            + le_u32(self.extra_information)
    }

    /// One key transition: the scan code and the key flags, every other
    /// field zero.
    pub fn key_event(scan_code: u16, flags: u16) -> (data: Self)
        ensures
            data == key_record(scan_code, flags),
            data.unit_id == 0,
            data.make_code == scan_code,
            data.flags == flags,
            data.reserved == 0,
            data.extra_information == 0,
    {
        KeyboardInputData { unit_id: 0, make_code: scan_code, flags, reserved: 0, extra_information: 0 }
    }

    /// Encodes the record in its C layout.
    pub fn to_bytes(&self) -> (bytes: Vec<u8>)
        ensures
            bytes@ == self.spec_bytes(),
            bytes@.len() == KEYBOARD_INPUT_DATA_SIZE,
    {
        let mut out: Vec<u8> = Vec::with_capacity(KEYBOARD_INPUT_DATA_SIZE);
        push_u16(&mut out, self.unit_id);
        push_u16(&mut out, self.make_code);
        push_u16(&mut out, self.flags);
        push_u16(&mut out, self.reserved);
        push_u32(&mut out, self.extra_information);
        assert(out@ =~= self.spec_bytes());
        out
    }
}

impl MouseInputData {
    /// The bytes of this record as the driver reads them; signed fields are
    /// stored in two's complement.
    pub open spec fn spec_bytes(self) -> Seq<u8> {
        le_u16(self.unit_id) + le_u16(self.flags) + le_u16(self.button_flags) + le_u16(
            self.button_data as u16,
        ) + le_u32(self.raw_buttons) + le_u32(self.last_x as u32) + le_u32(self.last_y as u32)
            + le_u32(self.extra_information)
    }

    /// A movement: the movement flags and the coordinates, every other field
    /// zero.
    pub fn movement(x: i32, y: i32, flags: u16) -> (data: Self)
        ensures
            data == movement_record(x, y, flags),
            data.unit_id == 0,
            data.flags == flags,
            data.button_flags == 0,
            data.button_data == 0,
            data.raw_buttons == 0,
            data.last_x == x,
            data.last_y == y,
            data.extra_information == 0,
    {
        MouseInputData {
            unit_id: 0,
            flags,
            button_flags: 0,
            button_data: 0,
            raw_buttons: 0,
            last_x: x,
            last_y: y,
            extra_information: 0,
        }
    }

    /// A button or wheel event: the button flags and the button data (the
    /// wheel rotation), every other field zero.
    pub fn button_event(button_flags: u16, button_data: i16) -> (data: Self)
        ensures
            data == button_record(button_flags, button_data),
            data.unit_id == 0,
            data.flags == 0,
            data.button_flags == button_flags,
            data.button_data == button_data,
            data.raw_buttons == 0,
            data.last_x == 0,
            data.last_y == 0,
            data.extra_information == 0,
    {
        MouseInputData {
            unit_id: 0,
            flags: 0,
            button_flags,
            button_data,
            raw_buttons: 0,
            last_x: 0,
            last_y: 0,
            extra_information: 0,
        }
    }

    /// Encodes the record in its C layout.
    pub fn to_bytes(&self) -> (bytes: Vec<u8>)
        ensures
            bytes@ == self.spec_bytes(),
            bytes@.len() == MOUSE_INPUT_DATA_SIZE,
    {
        let mut out: Vec<u8> = Vec::with_capacity(MOUSE_INPUT_DATA_SIZE);
        push_u16(&mut out, self.unit_id);
        push_u16(&mut out, self.flags);
        push_u16(&mut out, self.button_flags);
        push_u16(&mut out, self.button_data as u16);
        push_u32(&mut out, self.raw_buttons);
        push_u32(&mut out, self.last_x as u32);
        push_u32(&mut out, self.last_y as u32);
        push_u32(&mut out, self.extra_information);
        assert(out@ =~= self.spec_bytes());
        out
    }
}

/// The keyboard record that the driver reads from `b`: each field from its C
/// offset.
pub open spec fn decode_keyboard(b: Seq<u8>) -> KeyboardInputData {
    KeyboardInputData {
        unit_id: read_u16(b, 0),
        make_code: read_u16(b, 2),
        flags: read_u16(b, 4),
        reserved: read_u16(b, 6),
        extra_information: read_u32(b, 8),
    }
}

/// The mouse record that the driver reads from `b`: each field from its C
/// offset.
pub open spec fn decode_mouse(b: Seq<u8>) -> MouseInputData {
    MouseInputData {
        unit_id: read_u16(b, 0),
        flags: read_u16(b, 2),
        button_flags: read_u16(b, 4),
        button_data: read_u16(b, 6) as i16,
        raw_buttons: read_u32(b, 8),
        last_x: read_u32(b, 12) as i32,
        last_y: read_u32(b, 16) as i32,
        extra_information: read_u32(b, 20),
    }
}

/// The encoding of a keyboard record has the size of `KEYBOARD_INPUT_DATA`,
/// and the driver, reading each field at its C offset, reads back the very
/// record that was encoded.
pub proof fn lemma_keyboard_layout(data: KeyboardInputData)
    ensures
        data.spec_bytes().len() == KEYBOARD_INPUT_DATA_SIZE,
        decode_keyboard(data.spec_bytes()) == data,
{
    let b = data.spec_bytes();
    assert(b.len() == 12);
    lemma_read_u16(b, 0, data.unit_id);
    lemma_read_u16(b, 2, data.make_code);
    lemma_read_u16(b, 4, data.flags);
    lemma_read_u16(b, 6, data.reserved);
    lemma_read_u32(b, 8, data.extra_information);
}

/// The encoding of a mouse record has the size of `MOUSE_INPUT_DATA`, and
/// the driver, reading each field at its C offset, reads back the very record
/// that was encoded.
pub proof fn lemma_mouse_layout(data: MouseInputData)
    ensures
        data.spec_bytes().len() == MOUSE_INPUT_DATA_SIZE,
        decode_mouse(data.spec_bytes()) == data,
{
    let b = data.spec_bytes();
    assert(b.len() == 24);
    lemma_read_u16(b, 0, data.unit_id);
    lemma_read_u16(b, 2, data.flags);
    lemma_read_u16(b, 4, data.button_flags);
    lemma_read_u16(b, 6, data.button_data as u16);
    lemma_read_u32(b, 8, data.raw_buttons);
    lemma_read_u32(b, 12, data.last_x as u32);
    lemma_read_u32(b, 16, data.last_y as u32);
    lemma_read_u32(b, 20, data.extra_information);
    lemma_signed_u16(data.button_data);
    lemma_signed_u32(data.last_x);
    lemma_signed_u32(data.last_y);
}

/// Distinct keyboard records never share an encoding.
pub proof fn lemma_keyboard_encoding_injective(a: KeyboardInputData, b: KeyboardInputData)
    requires
        a.spec_bytes() == b.spec_bytes(),
    ensures
        a == b,
{
    lemma_keyboard_layout(a);
    lemma_keyboard_layout(b);
}

/// Distinct mouse records never share an encoding.
pub proof fn lemma_mouse_encoding_injective(a: MouseInputData, b: MouseInputData)
    requires
        a.spec_bytes() == b.spec_bytes(),
    ensures
        a == b,
{
    lemma_mouse_layout(a);
    lemma_mouse_layout(b);
}

/// The record of a key transition carries the caller's scan code and key
/// flags unchanged, and the driver reads them back from its bytes.
pub proof fn lemma_key_record_carries_its_arguments(scan_code: u16, flags: u16)
    ensures
        decode_keyboard(key_record(scan_code, flags).spec_bytes()).make_code == scan_code,
        decode_keyboard(key_record(scan_code, flags).spec_bytes()).flags == flags,
        decode_keyboard(key_record(scan_code, flags).spec_bytes()).unit_id == 0,
        decode_keyboard(key_record(scan_code, flags).spec_bytes()).reserved == 0,
        decode_keyboard(key_record(scan_code, flags).spec_bytes()).extra_information == 0,
{
    lemma_keyboard_layout(key_record(scan_code, flags));
}

/// The record of a movement carries the caller's coordinates and movement
/// flags unchanged, whatever their values (absolute coordinates up to 65535
/// included), and the driver reads them back from its bytes; no button or
/// wheel state goes with it.
pub proof fn lemma_movement_carries_coordinates(x: i32, y: i32, flags: u16)
    ensures
        decode_mouse(movement_record(x, y, flags).spec_bytes()).last_x == x,
        decode_mouse(movement_record(x, y, flags).spec_bytes()).last_y == y,
        decode_mouse(movement_record(x, y, flags).spec_bytes()).flags == flags,
        decode_mouse(movement_record(x, y, flags).spec_bytes()).button_flags == 0,
        decode_mouse(movement_record(x, y, flags).spec_bytes()).button_data == 0,
        decode_mouse(movement_record(x, y, flags).spec_bytes()).raw_buttons == 0,
{
    lemma_mouse_layout(movement_record(x, y, flags));
}

/// The record of a button or wheel event carries the caller's button flags
/// and button data unchanged, and the driver reads them back from its bytes;
/// no movement goes with it.
pub proof fn lemma_button_record_carries_its_arguments(button_flags: u16, button_data: i16)
    ensures
        decode_mouse(button_record(button_flags, button_data).spec_bytes()).button_flags
            == button_flags,
        decode_mouse(button_record(button_flags, button_data).spec_bytes()).button_data
            == button_data,
        decode_mouse(button_record(button_flags, button_data).spec_bytes()).flags == 0,
        decode_mouse(button_record(button_flags, button_data).spec_bytes()).last_x == 0,
        decode_mouse(button_record(button_flags, button_data).spec_bytes()).last_y == 0,
{
    lemma_mouse_layout(button_record(button_flags, button_data));
}

} // verus!
