//! The device control codes that the driver answers (they match its header).

use vstd::prelude::*;

verus! {

/// Device type of keyboard devices.
pub const FILE_DEVICE_KEYBOARD: u32 = 0x000B;

/// Device type of mouse devices.
pub const FILE_DEVICE_MOUSE: u32 = 0x000F;

/// The driver's function number for "send input".
pub const FUNCTION_SEND_INPUT: u32 = 0x820;

/// Buffered transfer method.
pub const METHOD_BUFFERED: u32 = 0;

/// Any access suffices.
pub const FILE_ANY_ACCESS: u32 = 0;

/// `CTL_CODE` of the Windows headers: the device type above bit 16, the
/// access in bits 14..16, the function in bits 2..14 and the method in bits
/// 0..2.
pub open spec fn ctl_code(device_type: u32, function: u32, method: u32, access: u32) -> int {
    device_type * 0x10000 + access * 0x4000 + function * 4 + method
}

/// Control code that injects one keyboard record.
pub const IOCTL_KEYBOARD_SEND: u32 = (0x000B << 16) | (0x820 << 2);

/// Control code that injects one mouse record.
pub const IOCTL_MOUSE_SEND: u32 = (0x000F << 16) | (0x820 << 2);

/// The two control codes are `CTL_CODE(FILE_DEVICE_KEYBOARD, 0x820,
/// METHOD_BUFFERED, FILE_ANY_ACCESS)` and `CTL_CODE(FILE_DEVICE_MOUSE, 0x820,
/// METHOD_BUFFERED, FILE_ANY_ACCESS)`, and they differ.
pub proof fn lemma_control_codes()
    ensures
        IOCTL_KEYBOARD_SEND == ctl_code(
            FILE_DEVICE_KEYBOARD,
            FUNCTION_SEND_INPUT,
            METHOD_BUFFERED,
            FILE_ANY_ACCESS,
        ),
        IOCTL_MOUSE_SEND == ctl_code(
            FILE_DEVICE_MOUSE,
            FUNCTION_SEND_INPUT,
            METHOD_BUFFERED,
            FILE_ANY_ACCESS,
        ),
        IOCTL_KEYBOARD_SEND != IOCTL_MOUSE_SEND,
{
    assert((0x000Bu32 << 16u32) | (0x820u32 << 2u32) == 0x000B2080u32) by (bit_vector);
    assert((0x000Fu32 << 16u32) | (0x820u32 << 2u32) == 0x000F2080u32) by (bit_vector);
}

} // verus!
