//! Protocol side of the Alluno Hardware Input Driver (AllunoHInpuD).
//!
//! The driver accepts one keyboard or mouse event per `DeviceIoControl`
//! request, as the bytes of a kernel `KEYBOARD_INPUT_DATA` or
//! `MOUSE_INPUT_DATA` record. This crate builds those records, encodes them
//! byte for byte, forms the requests that a handle sends, sequences the
//! requests of a composite operation, and holds the decisions of the
//! companion test tool. Opening devices and sending requests is left to the
//! caller, which hands the outcomes back.

pub mod key_flags;
pub mod mouse_button_flags;
pub mod mouse_move_flags;
pub mod scan_code;
pub mod ioctl;
pub mod wire;
pub mod device;
pub mod transfer;
pub mod monitor;
pub mod selftest;

pub use wire::KeyboardInputData;
pub use wire::MouseInputData;
pub use device::{AllunoHinpud, AllunoHinpudKeyboard, AllunoHinpudMouse, DeviceKind, IoRequest};
pub use transfer::Transfer;
