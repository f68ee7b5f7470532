//! The input that the test tool sends: through the driver, where every event
//! should arrive as hardware input, and through `SendInput` as a baseline,
//! where every event should arrive flagged as injected.
//!
//! Both runs use harmless input and leave things as they found them: every
//! key or button they press they release later, and the cursor and the
//! wheels end where they started.

use vstd::prelude::*;

use crate::key_flags;
use crate::mouse_button_flags;
use crate::scan_code;

verus! {

/// The part of a test that a step belongs to; the tool prints a header when
/// it begins.
#[derive(Clone, Copy, Debug, PartialEq, Eq, Structural)]
pub enum Section {
    Keyboard,
    Mouse,
    ExtendedKeys,
}

impl Section {
    /// The header printed when the section begins.
    pub fn header(&self) -> (header: &'static str)
        ensures
            header@ == (match self {
                Section::Keyboard => "--- Keyboard ---"@,
                Section::Mouse => "--- Mouse ---"@,
                Section::ExtendedKeys => "--- Extended Keys ---"@,
            }),
    {
        match self {
            Section::Keyboard => "--- Keyboard ---",
            Section::Mouse => "--- Mouse ---",
            Section::ExtendedKeys => "--- Extended Keys ---",
        }
    }
}

/// One input sent through the driver: keyboard actions go to the keyboard
/// device, the others to the mouse device.
#[derive(Clone, Copy, Debug, PartialEq, Eq, Structural)]
pub enum DriverAction {
    /// `send_key_raw(scan_code, flags)`.
    KeyRaw { scan_code: u16, flags: u16 },
    /// `send_move(x, y, absolute)`.
    Move { x: i32, y: i32, absolute: bool },
    /// `send_button(button_flags)`.
    Button { button_flags: u16 },
    /// `send_wheel(delta)`.
    Wheel { delta: i16 },
    /// `send_hwheel(delta)`.
    HWheel { delta: i16 },
}

/// One step of the driver test: what to send, the topic under which the tool
/// announces it ("Sending <topic>...") and the label of its result.
#[derive(Clone, Copy, Debug, PartialEq, Eq)]
pub struct DriverStep {
    pub section: Section,
    pub topic: &'static str,
    pub label: &'static str,
    pub action: DriverAction,
}

/// The driver test: right and left shift pressed and released, a relative
/// move there and back, a left and a right click, a wheel and a horizontal
/// wheel turn there and back, and right control (left control with the `E0`
/// prefix) pressed and released.
pub open spec fn spec_driver_plan() -> Seq<DriverStep> {
    seq![
        DriverStep { section: Section::Keyboard, topic: "RShift", label: "down",
            action: DriverAction::KeyRaw { scan_code: scan_code::RIGHT_SHIFT, flags: key_flags::KEY_MAKE } },
        DriverStep { section: Section::Keyboard, topic: "RShift", label: "up",
            action: DriverAction::KeyRaw { scan_code: scan_code::RIGHT_SHIFT, flags: key_flags::BREAK } },
        DriverStep { section: Section::Keyboard, topic: "LShift", label: "down",
            action: DriverAction::KeyRaw { scan_code: scan_code::LEFT_SHIFT, flags: key_flags::KEY_MAKE } },
        DriverStep { section: Section::Keyboard, topic: "LShift", label: "up",
            action: DriverAction::KeyRaw { scan_code: scan_code::LEFT_SHIFT, flags: key_flags::BREAK } },
        DriverStep { section: Section::Mouse, topic: "relative move", label: "+1,+1",
            action: DriverAction::Move { x: 1i32, y: 1i32, absolute: false } },
        DriverStep { section: Section::Mouse, topic: "relative move", label: "-1,-1",
            action: DriverAction::Move { x: -1i32, y: -1i32, absolute: false } },
        DriverStep { section: Section::Mouse, topic: "left click", label: "down",
            action: DriverAction::Button { button_flags: mouse_button_flags::LEFT_BUTTON_DOWN } },
        DriverStep { section: Section::Mouse, topic: "left click", label: "up",
            action: DriverAction::Button { button_flags: mouse_button_flags::LEFT_BUTTON_UP } },
        DriverStep { section: Section::Mouse, topic: "right click", label: "down",
            action: DriverAction::Button { button_flags: mouse_button_flags::RIGHT_BUTTON_DOWN } },
        DriverStep { section: Section::Mouse, topic: "right click", label: "up",
            action: DriverAction::Button { button_flags: mouse_button_flags::RIGHT_BUTTON_UP } },
        DriverStep { section: Section::Mouse, topic: "wheel", label: "up",
            action: DriverAction::Wheel { delta: 120i16 } },
        DriverStep { section: Section::Mouse, topic: "wheel", label: "down",
            action: DriverAction::Wheel { delta: -120i16 } },
        DriverStep { section: Section::Mouse, topic: "hwheel", label: "right",
            action: DriverAction::HWheel { delta: 120i16 } },
        DriverStep { section: Section::Mouse, topic: "hwheel", label: "left",
            action: DriverAction::HWheel { delta: -120i16 } },
        DriverStep { section: Section::ExtendedKeys, topic: "RCtrl (E0)", label: "down",
            action: DriverAction::KeyRaw { scan_code: scan_code::LEFT_CTRL, flags: key_flags::E0 } },
        DriverStep { section: Section::ExtendedKeys, topic: "RCtrl (E0)", label: "up",
            action: DriverAction::KeyRaw { scan_code: scan_code::LEFT_CTRL, flags: key_flags::BREAK | key_flags::E0 } },
    ]
}

/// The action presses a key down.
pub open spec fn presses_key(action: DriverAction) -> bool {
    action matches DriverAction::KeyRaw { flags, .. } && flags & key_flags::BREAK == 0
}

/// `later` releases the key that `down` pressed: the same scan code, the same
/// prefixes, the break flag set.
pub open spec fn releases_key(later: DriverAction, down: DriverAction) -> bool {
    &&& later matches DriverAction::KeyRaw { scan_code: s2, flags: f2 }
    &&& down matches DriverAction::KeyRaw { scan_code: s1, flags: f1 }
    &&& s1 == s2
    &&& f2 == f1 | key_flags::BREAK
}

/// The button-up flag that ends a button-down flag, if it is one.
pub open spec fn button_release(down: u16) -> Option<u16> {
    if down == mouse_button_flags::LEFT_BUTTON_DOWN {
        Some(mouse_button_flags::LEFT_BUTTON_UP)
    } else if down == mouse_button_flags::RIGHT_BUTTON_DOWN {
        Some(mouse_button_flags::RIGHT_BUTTON_UP)
    } else if down == mouse_button_flags::MIDDLE_BUTTON_DOWN {
        Some(mouse_button_flags::MIDDLE_BUTTON_UP)
    } else {
        None
    }
}

/// Every key that the steps press is released by a later step, and every
/// button that they press down goes up in a later step.
pub open spec fn driver_plan_releases_all(plan: Seq<DriverStep>) -> bool {
    &&& forall|i: int|
        0 <= i < plan.len() && presses_key(#[trigger] plan[i].action) ==> exists|j: int|
            i < j < plan.len() && releases_key(#[trigger] plan[j].action, plan[i].action)
    &&& forall|i: int|
        0 <= i < plan.len() && (#[trigger] plan[i].action matches DriverAction::Button {
            button_flags,
        } && button_release(button_flags) is Some) ==> exists|j: int|
            i < j < plan.len() && #[trigger] plan[j].action == (DriverAction::Button {
                button_flags: button_release(plan[i].action->button_flags)->0,
            })
}

/// Horizontal offset, vertical offset, wheel rotation and horizontal wheel
/// rotation of one action; absolute moves count for nothing here.
pub open spec fn driver_motion(action: DriverAction) -> (int, int, int, int) {
    match action {
        DriverAction::Move { x, y, absolute } => if absolute {
            (0, 0, 0, 0)
        } else {
            (x as int, y as int, 0, 0)
        },
        DriverAction::Wheel { delta } => (0, 0, delta as int, 0),
        DriverAction::HWheel { delta } => (0, 0, 0, delta as int),
        _ => (0, 0, 0, 0),
    }
}

/// The sum of the motion of the first `n` steps.
pub open spec fn driver_net_motion(plan: Seq<DriverStep>, n: int) -> (int, int, int, int)
    decreases n,
{
    if n <= 0 {
        (0, 0, 0, 0)
    } else {
        let before = driver_net_motion(plan, n - 1);
        let m = driver_motion(plan[n - 1].action);
        (before.0 + m.0, before.1 + m.1, before.2 + m.2, before.3 + m.3)
    }
}

/// The steps leave the input as they found it: every key and button pressed
/// is released, no absolute move is made, and the relative moves and the
/// wheel rotations add up to nothing.
pub open spec fn driver_plan_restores_input(plan: Seq<DriverStep>) -> bool {
    &&& driver_plan_releases_all(plan)
    &&& forall|i: int|
        0 <= i < plan.len() ==> !(#[trigger] plan[i].action matches DriverAction::Move {
            absolute: true,
            ..
        })
    &&& driver_net_motion(plan, plan.len() as int) == (0int, 0int, 0int, 0int)
}

/// Whether `action` is the kind of input that a driver-test topic announces:
/// the named shift key, a relative move, a left or a right button event, a
/// turn of the named wheel, right control (left control with the `E0`
/// prefix).
pub open spec fn driver_action_fits_topic(topic: Seq<char>, action: DriverAction) -> bool {
    if topic == "RShift"@ {
        action matches DriverAction::KeyRaw { scan_code, .. } && scan_code == scan_code::RIGHT_SHIFT
    } else if topic == "LShift"@ {
        action matches DriverAction::KeyRaw { scan_code, .. } && scan_code == scan_code::LEFT_SHIFT
    } else if topic == "relative move"@ {
        action matches DriverAction::Move { absolute, .. } && !absolute
    } else if topic == "left click"@ {
        action matches DriverAction::Button { button_flags } && (button_flags
            == mouse_button_flags::LEFT_BUTTON_DOWN || button_flags
            == mouse_button_flags::LEFT_BUTTON_UP)
    } else if topic == "right click"@ {
        action matches DriverAction::Button { button_flags } && (button_flags
            == mouse_button_flags::RIGHT_BUTTON_DOWN || button_flags
            == mouse_button_flags::RIGHT_BUTTON_UP)
    } else if topic == "wheel"@ {
        action is Wheel
    } else if topic == "hwheel"@ {
        action is HWheel
    } else if topic == "RCtrl (E0)"@ {
        action matches DriverAction::KeyRaw { scan_code, flags } && scan_code
            == scan_code::LEFT_CTRL && flags & key_flags::E0 != 0
    } else {
        false
    }
}

/// The steps send `first` and, at a later step, `then`.
pub open spec fn driver_plan_sends_in_order(
    plan: Seq<DriverStep>,
    first: DriverAction,
    then: DriverAction,
) -> bool {
    exists|i: int, j: int|
        #![trigger plan[i], plan[j]]
        0 <= i < j < plan.len() && plan[i].action == first && plan[j].action == then
}

/// The steps exercise every input that the driver test announces, each step
/// sending what its topic names: both shift keys pressed then released, a
/// relative move there and back, a left and a right click, each wheel turned
/// one notch each way, and right control pressed then released.
pub open spec fn driver_plan_exercises_everything(plan: Seq<DriverStep>) -> bool {
    &&& forall|i: int|
        0 <= i < plan.len() ==> driver_action_fits_topic(#[trigger] plan[i].topic@, plan[i].action)
    &&& driver_plan_sends_in_order(
        plan,
        DriverAction::KeyRaw { scan_code: scan_code::RIGHT_SHIFT, flags: key_flags::KEY_MAKE },
        DriverAction::KeyRaw { scan_code: scan_code::RIGHT_SHIFT, flags: key_flags::BREAK },
    )
    &&& driver_plan_sends_in_order(
        plan,
        DriverAction::KeyRaw { scan_code: scan_code::LEFT_SHIFT, flags: key_flags::KEY_MAKE },
        DriverAction::KeyRaw { scan_code: scan_code::LEFT_SHIFT, flags: key_flags::BREAK },
    )
    &&& driver_plan_sends_in_order(
        plan,
        DriverAction::Move { x: 1, y: 1, absolute: false },
        DriverAction::Move { x: -1i32, y: -1i32, absolute: false },
    )
    &&& driver_plan_sends_in_order(
        plan,
        DriverAction::Button { button_flags: mouse_button_flags::LEFT_BUTTON_DOWN },
        DriverAction::Button { button_flags: mouse_button_flags::LEFT_BUTTON_UP },
    )
    &&& driver_plan_sends_in_order(
        plan,
        DriverAction::Button { button_flags: mouse_button_flags::RIGHT_BUTTON_DOWN },
        DriverAction::Button { button_flags: mouse_button_flags::RIGHT_BUTTON_UP },
    )
    &&& driver_plan_sends_in_order(
        plan,
        DriverAction::Wheel { delta: 120 },
        DriverAction::Wheel { delta: -120i16 },
    )
    &&& driver_plan_sends_in_order(
        plan,
        DriverAction::HWheel { delta: 120 },
        DriverAction::HWheel { delta: -120i16 },
    )
    &&& driver_plan_sends_in_order(
        plan,
        DriverAction::KeyRaw { scan_code: scan_code::LEFT_CTRL, flags: key_flags::E0 },
        DriverAction::KeyRaw {
            scan_code: scan_code::LEFT_CTRL,
            flags: key_flags::BREAK | key_flags::E0,
        },
    )
}

/// The driver test exercises every input it announces.
pub proof fn lemma_driver_plan_exercises_everything()
    ensures
        driver_plan_exercises_everything(spec_driver_plan()),
{
    let plan = spec_driver_plan();
    reveal_strlit("RShift");
    reveal_strlit("LShift");
    reveal_strlit("relative move");
    reveal_strlit("left click");
    reveal_strlit("right click");
    reveal_strlit("wheel");
    reveal_strlit("hwheel");
    reveal_strlit("RCtrl (E0)");
    assert("LShift"@[0] != "RShift"@[0]);
    assert("left click"@[0] != "relative move"@[0]);
    assert("right click"@[1] != "relative move"@[1]);
    assert("wheel"@[0] != "relative move"@[0]);
    assert("hwheel"@[0] != "wheel"@[0]);
    assert("RCtrl (E0)"@[1] != "RShift"@[1]);
    assert(2u16 & 2u16 != 0 && (1u16 | 2u16) & 2u16 != 0) by (bit_vector);
    assert(plan.len() == 16);
    assert forall|i: int| 0 <= i < plan.len() implies driver_action_fits_topic(
        #[trigger] plan[i].topic@,
        plan[i].action,
    ) by {
        if i == 0 {
            assert(driver_action_fits_topic(plan[0].topic@, plan[0].action));
        } else if i == 1 {
            assert(driver_action_fits_topic(plan[1].topic@, plan[1].action));
        } else if i == 2 {
            assert(driver_action_fits_topic(plan[2].topic@, plan[2].action));
        } else if i == 3 {
            assert(driver_action_fits_topic(plan[3].topic@, plan[3].action));
        } else if i == 4 {
            assert(driver_action_fits_topic(plan[4].topic@, plan[4].action));
        } else if i == 5 {
            assert(driver_action_fits_topic(plan[5].topic@, plan[5].action));
        } else if i == 6 {
            assert(driver_action_fits_topic(plan[6].topic@, plan[6].action));
        } else if i == 7 {
            assert(driver_action_fits_topic(plan[7].topic@, plan[7].action));
        } else if i == 8 {
            assert(driver_action_fits_topic(plan[8].topic@, plan[8].action));
        } else if i == 9 {
            assert(driver_action_fits_topic(plan[9].topic@, plan[9].action));
        } else if i == 10 {
            assert(driver_action_fits_topic(plan[10].topic@, plan[10].action));
        } else if i == 11 {
            assert(driver_action_fits_topic(plan[11].topic@, plan[11].action));
        } else if i == 12 {
            assert(driver_action_fits_topic(plan[12].topic@, plan[12].action));
        } else if i == 13 {
            assert(driver_action_fits_topic(plan[13].topic@, plan[13].action));
        } else if i == 14 {
            assert(driver_action_fits_topic(plan[14].topic@, plan[14].action));
        } else if i == 15 {
            assert(driver_action_fits_topic(plan[15].topic@, plan[15].action));
        }
    }
    assert(plan[0].action == DriverAction::KeyRaw { scan_code: scan_code::RIGHT_SHIFT, flags: key_flags::KEY_MAKE } && plan[1].action == DriverAction::KeyRaw { scan_code: scan_code::RIGHT_SHIFT, flags: key_flags::BREAK });
    assert(plan[2].action == DriverAction::KeyRaw { scan_code: scan_code::LEFT_SHIFT, flags: key_flags::KEY_MAKE } && plan[3].action == DriverAction::KeyRaw { scan_code: scan_code::LEFT_SHIFT, flags: key_flags::BREAK });
    assert(plan[4].action == DriverAction::Move { x: 1, y: 1, absolute: false } && plan[5].action == DriverAction::Move { x: -1i32, y: -1i32, absolute: false });
    assert(plan[6].action == DriverAction::Button { button_flags: mouse_button_flags::LEFT_BUTTON_DOWN } && plan[7].action == DriverAction::Button { button_flags: mouse_button_flags::LEFT_BUTTON_UP });
    assert(plan[8].action == DriverAction::Button { button_flags: mouse_button_flags::RIGHT_BUTTON_DOWN } && plan[9].action == DriverAction::Button { button_flags: mouse_button_flags::RIGHT_BUTTON_UP });
    assert(plan[10].action == DriverAction::Wheel { delta: 120 } && plan[11].action == DriverAction::Wheel { delta: -120i16 });
    assert(plan[12].action == DriverAction::HWheel { delta: 120 } && plan[13].action == DriverAction::HWheel { delta: -120i16 });
    assert(plan[14].action == DriverAction::KeyRaw { scan_code: scan_code::LEFT_CTRL, flags: key_flags::E0 } && plan[15].action == DriverAction::KeyRaw { scan_code: scan_code::LEFT_CTRL, flags: key_flags::BREAK | key_flags::E0 });
}

proof fn lemma_key_flag_values()
    ensures
        key_flags::KEY_MAKE & key_flags::BREAK == 0,
        key_flags::E0 & key_flags::BREAK == 0,
        key_flags::BREAK & key_flags::BREAK != 0,
        (key_flags::BREAK | key_flags::E0) & key_flags::BREAK != 0,
        key_flags::KEY_MAKE | key_flags::BREAK == key_flags::BREAK,
        key_flags::E0 | key_flags::BREAK == key_flags::BREAK | key_flags::E0,
{
    assert(0u16 & 1u16 == 0) by (bit_vector);
    assert(2u16 & 1u16 == 0) by (bit_vector);
    assert(1u16 & 1u16 != 0) by (bit_vector);
    assert((1u16 | 2u16) & 1u16 != 0) by (bit_vector);
    assert(0u16 | 1u16 == 1u16) by (bit_vector);
    assert(2u16 | 1u16 == 1u16 | 2u16) by (bit_vector);
}

proof fn lemma_driver_plan_restores_input()
    ensures
        driver_plan_restores_input(spec_driver_plan()),
{
    let plan = spec_driver_plan();
    lemma_key_flag_values();
    assert(plan.len() == 16);
    assert forall|i: int| 0 <= i < plan.len() && presses_key(#[trigger] plan[i].action) implies exists|
        j: int,
    | i < j < plan.len() && releases_key(#[trigger] plan[j].action, plan[i].action) by {
        if i == 0 {
            assert(releases_key(plan[1].action, plan[0].action));
        } else if i == 2 {
            assert(releases_key(plan[3].action, plan[2].action));
        } else if i == 14 {
            assert(releases_key(plan[15].action, plan[14].action));
        } else {
            assert(i == 1 || i == 3 || i == 15);
        }
    }
    assert forall|i: int|
        0 <= i < plan.len() && (#[trigger] plan[i].action matches DriverAction::Button {
            button_flags,
        } && button_release(button_flags) is Some) implies exists|j: int|
        i < j < plan.len() && #[trigger] plan[j].action == (DriverAction::Button {
            button_flags: button_release(plan[i].action->button_flags)->0,
        }) by {
        if i == 6 {
            assert(plan[7].action == (DriverAction::Button {
                button_flags: button_release(plan[6].action->button_flags)->0,
            }));
        } else if i == 8 {
            assert(plan[9].action == (DriverAction::Button {
                button_flags: button_release(plan[8].action->button_flags)->0,
            }));
        } else {
            assert(i == 7 || i == 9);
        }
    }
    reveal_with_fuel(driver_net_motion, 17);
    assert(driver_net_motion(plan, 16) == (0int, 0int, 0int, 0int));
}

/// The steps of the driver test, in order; they leave the input as they found
/// it.
pub fn driver_test_plan() -> (plan: Vec<DriverStep>)
    ensures
        plan@ == spec_driver_plan(),
        driver_plan_restores_input(plan@),
        driver_plan_exercises_everything(plan@),
{
    let mut plan: Vec<DriverStep> = Vec::new();
    plan.push(DriverStep { section: Section::Keyboard, topic: "RShift", label: "down",
        action: DriverAction::KeyRaw { scan_code: scan_code::RIGHT_SHIFT, flags: key_flags::KEY_MAKE } });
    plan.push(DriverStep { section: Section::Keyboard, topic: "RShift", label: "up",
        action: DriverAction::KeyRaw { scan_code: scan_code::RIGHT_SHIFT, flags: key_flags::BREAK } });
    plan.push(DriverStep { section: Section::Keyboard, topic: "LShift", label: "down",
        action: DriverAction::KeyRaw { scan_code: scan_code::LEFT_SHIFT, flags: key_flags::KEY_MAKE } });
    plan.push(DriverStep { section: Section::Keyboard, topic: "LShift", label: "up",
        action: DriverAction::KeyRaw { scan_code: scan_code::LEFT_SHIFT, flags: key_flags::BREAK } });
    plan.push(DriverStep { section: Section::Mouse, topic: "relative move", label: "+1,+1",
        action: DriverAction::Move { x: 1, y: 1, absolute: false } });
    plan.push(DriverStep { section: Section::Mouse, topic: "relative move", label: "-1,-1",
        action: DriverAction::Move { x: -1, y: -1, absolute: false } });
    plan.push(DriverStep { section: Section::Mouse, topic: "left click", label: "down",
        action: DriverAction::Button { button_flags: mouse_button_flags::LEFT_BUTTON_DOWN } });
    plan.push(DriverStep { section: Section::Mouse, topic: "left click", label: "up",
        action: DriverAction::Button { button_flags: mouse_button_flags::LEFT_BUTTON_UP } });
    plan.push(DriverStep { section: Section::Mouse, topic: "right click", label: "down",
        action: DriverAction::Button { button_flags: mouse_button_flags::RIGHT_BUTTON_DOWN } });
    plan.push(DriverStep { section: Section::Mouse, topic: "right click", label: "up",
        action: DriverAction::Button { button_flags: mouse_button_flags::RIGHT_BUTTON_UP } });
    plan.push(DriverStep { section: Section::Mouse, topic: "wheel", label: "up",
        action: DriverAction::Wheel { delta: 120 } });
    plan.push(DriverStep { section: Section::Mouse, topic: "wheel", label: "down",
        action: DriverAction::Wheel { delta: -120 } });
    plan.push(DriverStep { section: Section::Mouse, topic: "hwheel", label: "right",
        action: DriverAction::HWheel { delta: 120 } });
    plan.push(DriverStep { section: Section::Mouse, topic: "hwheel", label: "left",
        action: DriverAction::HWheel { delta: -120 } });
    plan.push(DriverStep { section: Section::ExtendedKeys, topic: "RCtrl (E0)", label: "down",
        action: DriverAction::KeyRaw { scan_code: scan_code::LEFT_CTRL, flags: key_flags::E0 } });
    plan.push(DriverStep { section: Section::ExtendedKeys, topic: "RCtrl (E0)", label: "up",
        action: DriverAction::KeyRaw { scan_code: scan_code::LEFT_CTRL, flags: key_flags::BREAK | key_flags::E0 } });
    assert(plan@ =~= spec_driver_plan());
    proof {
        lemma_driver_plan_restores_input();
        lemma_driver_plan_exercises_everything();
    }
    plan
}

/// `KEYEVENTF_SCANCODE`: the keyboard input names a scan code.
pub const KEYEVENTF_SCANCODE: u32 = 0x0008;

/// `KEYEVENTF_KEYUP`: the key goes up.
pub const KEYEVENTF_KEYUP: u32 = 0x0002;

/// `MOUSEEVENTF_MOVE`: relative movement.
pub const MOUSEEVENTF_MOVE: u32 = 0x0001;

/// `MOUSEEVENTF_LEFTDOWN`.
pub const MOUSEEVENTF_LEFTDOWN: u32 = 0x0002;

/// `MOUSEEVENTF_LEFTUP`.
pub const MOUSEEVENTF_LEFTUP: u32 = 0x0004;

/// The `KEYBDINPUT` flags of a scan-code key event sent through `SendInput`.
pub open spec fn spec_sendinput_key_flags(key_up: bool) -> u32 {
    if key_up {
        KEYEVENTF_SCANCODE | KEYEVENTF_KEYUP
    } else {
        KEYEVENTF_SCANCODE
    }
}

/// The `KEYBDINPUT` flags of a scan-code key event sent through `SendInput`.
pub fn sendinput_key_flags(key_up: bool) -> (flags: u32)
    ensures
        flags == spec_sendinput_key_flags(key_up),
{
    let mut flags = KEYEVENTF_SCANCODE;
    if key_up {
        flags = flags | KEYEVENTF_KEYUP;
    }
    flags
}

/// One input sent through `SendInput`.
#[derive(Clone, Copy, Debug, PartialEq, Eq, Structural)]
pub enum SyntheticInput {
    /// A key event by scan code (no virtual key).
    Key { scan_code: u16, key_up: bool },
    /// A mouse event with its `MOUSEINPUT` flags and offsets.
    Mouse { flags: u32, dx: i32, dy: i32 },
}

/// One step of the `SendInput` baseline and the topic under which the tool
/// announces it ("Sending <topic> via SendInput...").
#[derive(Clone, Copy, Debug, PartialEq, Eq)]
pub struct BaselineStep {
    pub section: Section,
    pub topic: &'static str,
    pub input: SyntheticInput,
}

/// The `SendInput` baseline: right and left shift pressed and released, a
/// relative move there and back, and a left click.
pub open spec fn spec_baseline_plan() -> Seq<BaselineStep> {
    seq![
        BaselineStep { section: Section::Keyboard, topic: "RShift",
            input: SyntheticInput::Key { scan_code: scan_code::RIGHT_SHIFT, key_up: false } },
        BaselineStep { section: Section::Keyboard, topic: "RShift",
            input: SyntheticInput::Key { scan_code: scan_code::RIGHT_SHIFT, key_up: true } },
        BaselineStep { section: Section::Keyboard, topic: "LShift",
            input: SyntheticInput::Key { scan_code: scan_code::LEFT_SHIFT, key_up: false } },
        BaselineStep { section: Section::Keyboard, topic: "LShift",
            input: SyntheticInput::Key { scan_code: scan_code::LEFT_SHIFT, key_up: true } },
        BaselineStep { section: Section::Mouse, topic: "relative move",
            input: SyntheticInput::Mouse { flags: MOUSEEVENTF_MOVE, dx: 1i32, dy: 1i32 } },
        BaselineStep { section: Section::Mouse, topic: "relative move",
            input: SyntheticInput::Mouse { flags: MOUSEEVENTF_MOVE, dx: -1i32, dy: -1i32 } },
        BaselineStep { section: Section::Mouse, topic: "left click",
            input: SyntheticInput::Mouse { flags: MOUSEEVENTF_LEFTDOWN, dx: 0i32, dy: 0i32 } },
        BaselineStep { section: Section::Mouse, topic: "left click",
            input: SyntheticInput::Mouse { flags: MOUSEEVENTF_LEFTUP, dx: 0i32, dy: 0i32 } },
    ]
}

/// The steps leave the input as they found it: every key pressed is released
/// by a later step, every left-button press is followed by a left-button
/// release, and the relative moves add up to nothing.
pub open spec fn baseline_plan_restores_input(plan: Seq<BaselineStep>) -> bool {
    &&& forall|i: int|
        0 <= i < plan.len() && (#[trigger] plan[i].input matches SyntheticInput::Key {
            key_up: false,
            ..
        }) ==> exists|j: int|
            i < j < plan.len() && #[trigger] plan[j].input == (SyntheticInput::Key {
                scan_code: plan[i].input->scan_code,
                key_up: true,
            })
    &&& forall|i: int|
        0 <= i < plan.len() && (#[trigger] plan[i].input matches SyntheticInput::Mouse {
            flags,
            ..
        } && flags == MOUSEEVENTF_LEFTDOWN) ==> exists|j: int|
            i < j < plan.len() && (#[trigger] plan[j].input matches SyntheticInput::Mouse {
                flags,
                ..
            } && flags == MOUSEEVENTF_LEFTUP)
    &&& baseline_net_motion(plan, plan.len() as int) == (0int, 0int)
}

/// The sum of the relative moves of the first `n` steps.
pub open spec fn baseline_net_motion(plan: Seq<BaselineStep>, n: int) -> (int, int)
    decreases n,
{
    if n <= 0 {
        (0, 0)
    } else {
        let before = baseline_net_motion(plan, n - 1);
        match plan[n - 1].input {
            SyntheticInput::Mouse { flags, dx, dy } => if flags == MOUSEEVENTF_MOVE {
                (before.0 + dx, before.1 + dy)
            } else {
                before
            },
            _ => before,
        }
    }
}

/// Whether `input` is the kind of input that a baseline topic announces: the
/// named shift key, a relative move, a left-button event.
pub open spec fn baseline_input_fits_topic(topic: Seq<char>, input: SyntheticInput) -> bool {
    if topic == "RShift"@ {
        input matches SyntheticInput::Key { scan_code, .. } && scan_code == scan_code::RIGHT_SHIFT
    } else if topic == "LShift"@ {
        input matches SyntheticInput::Key { scan_code, .. } && scan_code == scan_code::LEFT_SHIFT
    } else if topic == "relative move"@ {
        input matches SyntheticInput::Mouse { flags, .. } && flags == MOUSEEVENTF_MOVE
    } else if topic == "left click"@ {
        input matches SyntheticInput::Mouse { flags, .. } && (flags == MOUSEEVENTF_LEFTDOWN
            || flags == MOUSEEVENTF_LEFTUP)
    } else {
        false
    }
}

/// The steps send `first` and, at a later step, `then`.
pub open spec fn baseline_plan_sends_in_order(
    plan: Seq<BaselineStep>,
    first: SyntheticInput,
    then: SyntheticInput,
) -> bool {
    exists|i: int, j: int|
        #![trigger plan[i], plan[j]]
        0 <= i < j < plan.len() && plan[i].input == first && plan[j].input == then
}

/// The steps exercise every input that the baseline announces, each step
/// sending what its topic names: right shift and left shift each pressed then
/// released, a relative move there and back, and a left click.
pub open spec fn baseline_plan_exercises_everything(plan: Seq<BaselineStep>) -> bool {
    &&& forall|i: int|
        0 <= i < plan.len() ==> baseline_input_fits_topic(#[trigger] plan[i].topic@, plan[i].input)
    &&& baseline_plan_sends_in_order(
        plan,
        SyntheticInput::Key { scan_code: scan_code::RIGHT_SHIFT, key_up: false },
        SyntheticInput::Key { scan_code: scan_code::RIGHT_SHIFT, key_up: true },
    )
    &&& baseline_plan_sends_in_order(
        plan,
        SyntheticInput::Key { scan_code: scan_code::LEFT_SHIFT, key_up: false },
        SyntheticInput::Key { scan_code: scan_code::LEFT_SHIFT, key_up: true },
    )
    &&& baseline_plan_sends_in_order(
        plan,
        SyntheticInput::Mouse { flags: MOUSEEVENTF_MOVE, dx: 1, dy: 1 },
        SyntheticInput::Mouse { flags: MOUSEEVENTF_MOVE, dx: -1i32, dy: -1i32 },
    )
    &&& baseline_plan_sends_in_order(
        plan,
        SyntheticInput::Mouse { flags: MOUSEEVENTF_LEFTDOWN, dx: 0, dy: 0 },
        SyntheticInput::Mouse { flags: MOUSEEVENTF_LEFTUP, dx: 0, dy: 0 },
    )
}

/// The `SendInput` baseline exercises every input it announces.
pub proof fn lemma_baseline_plan_exercises_everything()
    ensures
        baseline_plan_exercises_everything(spec_baseline_plan()),
{
    let plan = spec_baseline_plan();
    reveal_strlit("RShift");
    reveal_strlit("LShift");
    reveal_strlit("relative move");
    reveal_strlit("left click");
    assert("LShift"@[0] != "RShift"@[0]);
    assert("left click"@[0] != "relative move"@[0]);
    assert(plan.len() == 8);
    assert forall|i: int| 0 <= i < plan.len() implies baseline_input_fits_topic(
        #[trigger] plan[i].topic@,
        plan[i].input,
    ) by {
        if i == 0 {
            assert(baseline_input_fits_topic(plan[0].topic@, plan[0].input));
        } else if i == 1 {
            assert(baseline_input_fits_topic(plan[1].topic@, plan[1].input));
        } else if i == 2 {
            assert(baseline_input_fits_topic(plan[2].topic@, plan[2].input));
        } else if i == 3 {
            assert(baseline_input_fits_topic(plan[3].topic@, plan[3].input));
        } else if i == 4 {
            assert(baseline_input_fits_topic(plan[4].topic@, plan[4].input));
        } else if i == 5 {
            assert(baseline_input_fits_topic(plan[5].topic@, plan[5].input));
        } else if i == 6 {
            assert(baseline_input_fits_topic(plan[6].topic@, plan[6].input));
        } else if i == 7 {
            assert(baseline_input_fits_topic(plan[7].topic@, plan[7].input));
        }
    }
    assert(plan[0].input == SyntheticInput::Key { scan_code: scan_code::RIGHT_SHIFT, key_up: false } && plan[1].input == SyntheticInput::Key { scan_code: scan_code::RIGHT_SHIFT, key_up: true });
    assert(plan[2].input == SyntheticInput::Key { scan_code: scan_code::LEFT_SHIFT, key_up: false } && plan[3].input == SyntheticInput::Key { scan_code: scan_code::LEFT_SHIFT, key_up: true });
    assert(plan[4].input == SyntheticInput::Mouse { flags: MOUSEEVENTF_MOVE, dx: 1, dy: 1 } && plan[5].input == SyntheticInput::Mouse { flags: MOUSEEVENTF_MOVE, dx: -1i32, dy: -1i32 });
    assert(plan[6].input == SyntheticInput::Mouse { flags: MOUSEEVENTF_LEFTDOWN, dx: 0, dy: 0 } && plan[7].input == SyntheticInput::Mouse { flags: MOUSEEVENTF_LEFTUP, dx: 0, dy: 0 });
}

proof fn lemma_baseline_plan_restores_input()
    ensures
        baseline_plan_restores_input(spec_baseline_plan()),
{
    let plan = spec_baseline_plan();
    assert(plan.len() == 8);
    assert forall|i: int|
        0 <= i < plan.len() && (#[trigger] plan[i].input matches SyntheticInput::Key {
            key_up: false,
            ..
        }) implies exists|j: int|
        i < j < plan.len() && #[trigger] plan[j].input == (SyntheticInput::Key {
            scan_code: plan[i].input->scan_code,
            key_up: true,
        }) by {
        if i == 0 {
            assert(plan[1].input == (SyntheticInput::Key {
                scan_code: plan[0].input->scan_code,
                key_up: true,
            }));
        } else if i == 2 {
            assert(plan[3].input == (SyntheticInput::Key {
                scan_code: plan[2].input->scan_code,
                key_up: true,
            }));
        } else {
            assert(i == 1 || i == 3);
        }
    }
    assert forall|i: int|
        0 <= i < plan.len() && (#[trigger] plan[i].input matches SyntheticInput::Mouse {
            flags,
            ..
        } && flags == MOUSEEVENTF_LEFTDOWN) implies exists|j: int|
        i < j < plan.len() && (#[trigger] plan[j].input matches SyntheticInput::Mouse {
            flags,
            ..
        } && flags == MOUSEEVENTF_LEFTUP) by {
        if i == 6 {
            assert(plan[7].input matches SyntheticInput::Mouse { flags, .. } && flags
                == MOUSEEVENTF_LEFTUP);
        } else {
            assert(i == 7);
        }
    }
    reveal_with_fuel(baseline_net_motion, 9);
    assert(baseline_net_motion(plan, 8) == (0int, 0int));
}

/// The steps of the `SendInput` baseline, in order; they leave the input as
/// they found it.
pub fn baseline_test_plan() -> (plan: Vec<BaselineStep>)
    ensures
        plan@ == spec_baseline_plan(),
        baseline_plan_restores_input(plan@),
        baseline_plan_exercises_everything(plan@),
{
    let mut plan: Vec<BaselineStep> = Vec::new();
    plan.push(BaselineStep { section: Section::Keyboard, topic: "RShift",
        input: SyntheticInput::Key { scan_code: scan_code::RIGHT_SHIFT, key_up: false } });
    plan.push(BaselineStep { section: Section::Keyboard, topic: "RShift",
        input: SyntheticInput::Key { scan_code: scan_code::RIGHT_SHIFT, key_up: true } });
    plan.push(BaselineStep { section: Section::Keyboard, topic: "LShift",
        input: SyntheticInput::Key { scan_code: scan_code::LEFT_SHIFT, key_up: false } });
    plan.push(BaselineStep { section: Section::Keyboard, topic: "LShift",
        input: SyntheticInput::Key { scan_code: scan_code::LEFT_SHIFT, key_up: true } });
    plan.push(BaselineStep { section: Section::Mouse, topic: "relative move",
        input: SyntheticInput::Mouse { flags: MOUSEEVENTF_MOVE, dx: 1, dy: 1 } });
    plan.push(BaselineStep { section: Section::Mouse, topic: "relative move",
        input: SyntheticInput::Mouse { flags: MOUSEEVENTF_MOVE, dx: -1, dy: -1 } });
    plan.push(BaselineStep { section: Section::Mouse, topic: "left click",
        input: SyntheticInput::Mouse { flags: MOUSEEVENTF_LEFTDOWN, dx: 0, dy: 0 } });
    plan.push(BaselineStep { section: Section::Mouse, topic: "left click",
        input: SyntheticInput::Mouse { flags: MOUSEEVENTF_LEFTUP, dx: 0, dy: 0 } });
    assert(plan@ =~= spec_baseline_plan());
    proof {
        lemma_baseline_plan_restores_input();
        lemma_baseline_plan_exercises_everything();
    }
    plan
}

} // verus!
