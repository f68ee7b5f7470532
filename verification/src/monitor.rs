//! Decisions of the input monitor: how an event seen by the low-level
//! keyboard and mouse hooks is classified, what is counted while a test runs,
//! and the verdict on the counts.
//!
//! Windows marks an event that software injected (`SendInput`,
//! `keybd_event`) with an `INJECTED` flag; an event without it came from
//! hardware or from kernel-level emulation such as this driver's.

use vstd::prelude::*;

verus! {

/// `LLKHF_INJECTED` in `KBDLLHOOKSTRUCT::flags`.
pub const LLKHF_INJECTED: u32 = 0x10;

/// `LLMHF_INJECTED` in `MSLLHOOKSTRUCT::flags`.
pub const LLMHF_INJECTED: u32 = 0x01;

pub const WM_KEYDOWN: u32 = 0x0100;
pub const WM_SYSKEYDOWN: u32 = 0x0104;
pub const WM_MOUSEMOVE: u32 = 0x0200;
pub const WM_LBUTTONDOWN: u32 = 0x0201;
pub const WM_LBUTTONUP: u32 = 0x0202;
pub const WM_RBUTTONDOWN: u32 = 0x0204;
pub const WM_RBUTTONUP: u32 = 0x0205;
pub const WM_MBUTTONDOWN: u32 = 0x0207;
pub const WM_MBUTTONUP: u32 = 0x0208;
pub const WM_MOUSEWHEEL: u32 = 0x020A;

/// Direction of a key event.
#[derive(Clone, Copy, Debug, PartialEq, Eq, Structural)]
pub enum KeyTransition {
    Down,
    Up,
}

/// The direction of a keyboard hook message: key-down and system-key-down
/// messages are downs, every other message an up.
pub open spec fn spec_key_transition(message: u32) -> KeyTransition {
    if message == WM_KEYDOWN || message == WM_SYSKEYDOWN {
        KeyTransition::Down
    } else {
        KeyTransition::Up
    }
}

impl KeyTransition {
    /// The four-column label printed for the transition.
    pub fn label(&self) -> (label: &'static str)
        ensures
            label@ == (match self {
                KeyTransition::Down => "DOWN"@,
                KeyTransition::Up => "UP  "@,
            }),
    {
        match self {
            KeyTransition::Down => "DOWN",
            KeyTransition::Up => "UP  ",
        }
    }
}

/// What a mouse hook message reports.
#[derive(Clone, Copy, Debug, PartialEq, Eq, Structural)]
pub enum MouseAction {
    Move,
    LeftDown,
    LeftUp,
    RightDown,
    RightUp,
    MiddleDown,
    MiddleUp,
    Wheel,
    Unknown,
}

/// The action of a mouse hook message.
pub open spec fn spec_mouse_action(message: u32) -> MouseAction {
    if message == WM_MOUSEMOVE {
        MouseAction::Move
    } else if message == WM_LBUTTONDOWN {
        MouseAction::LeftDown
    } else if message == WM_LBUTTONUP {
        MouseAction::LeftUp
    } else if message == WM_RBUTTONDOWN {
        MouseAction::RightDown
    } else if message == WM_RBUTTONUP {
        MouseAction::RightUp
    } else if message == WM_MBUTTONDOWN {
        MouseAction::MiddleDown
    } else if message == WM_MBUTTONUP {
        MouseAction::MiddleUp
    } else if message == WM_MOUSEWHEEL {
        MouseAction::Wheel
    } else {
        MouseAction::Unknown
    }
}

/// How hook messages are classified: each of the eight mouse messages that
/// the monitor knows (move; left, right and middle button down and up; the
/// vertical wheel) has its own action, and every other message, the
/// horizontal wheel and the extra buttons among them, is unknown.
pub proof fn lemma_mouse_action_classification(message: u32)
    ensures
        (spec_mouse_action(message) == MouseAction::Move) <==> message == 0x0200,
        (spec_mouse_action(message) == MouseAction::LeftDown) <==> message == 0x0201,
        (spec_mouse_action(message) == MouseAction::LeftUp) <==> message == 0x0202,
        (spec_mouse_action(message) == MouseAction::RightDown) <==> message == 0x0204,
        (spec_mouse_action(message) == MouseAction::RightUp) <==> message == 0x0205,
        (spec_mouse_action(message) == MouseAction::MiddleDown) <==> message == 0x0207,
        (spec_mouse_action(message) == MouseAction::MiddleUp) <==> message == 0x0208,
        (spec_mouse_action(message) == MouseAction::Wheel) <==> message == 0x020A,
        (spec_mouse_action(message) == MouseAction::Unknown) <==> !(message == 0x0200 || message
            == 0x0201 || message == 0x0202 || message == 0x0204 || message == 0x0205 || message
            == 0x0207 || message == 0x0208 || message == 0x020A),
        (spec_key_transition(message) == KeyTransition::Down) <==> (message == 0x0100 || message
            == 0x0104),
{
}

impl MouseAction {
    /// The label printed for the action.
    pub fn label(&self) -> (label: &'static str)
        ensures
            label@ == (match self {
                MouseAction::Move => "MOVE"@,
                MouseAction::LeftDown => "L-DOWN"@,
                MouseAction::LeftUp => "L-UP"@,
                MouseAction::RightDown => "R-DOWN"@,
                MouseAction::RightUp => "R-UP"@,
                MouseAction::MiddleDown => "M-DOWN"@,
                MouseAction::MiddleUp => "M-UP"@,
                MouseAction::Wheel => "WHEEL"@,
                MouseAction::Unknown => "???"@,
            }),
    {
        match self {
            MouseAction::Move => "MOVE",
            MouseAction::LeftDown => "L-DOWN",
            MouseAction::LeftUp => "L-UP",
            MouseAction::RightDown => "R-DOWN",
            MouseAction::RightUp => "R-UP",
            MouseAction::MiddleDown => "M-DOWN",
            MouseAction::MiddleUp => "M-UP",
            MouseAction::Wheel => "WHEEL",
            MouseAction::Unknown => "???",
        }
    }
}

/// The action of a mouse hook message.
pub fn mouse_action(message: u32) -> (action: MouseAction)
    ensures
        action == spec_mouse_action(message),
        (action == MouseAction::Move) <==> message == 0x0200,
        (action == MouseAction::LeftDown) <==> message == 0x0201,
        (action == MouseAction::LeftUp) <==> message == 0x0202,
        (action == MouseAction::RightDown) <==> message == 0x0204,
        (action == MouseAction::RightUp) <==> message == 0x0205,
        (action == MouseAction::MiddleDown) <==> message == 0x0207,
        (action == MouseAction::MiddleUp) <==> message == 0x0208,
        (action == MouseAction::Wheel) <==> message == 0x020A,
        (action == MouseAction::Unknown) <==> !(message == 0x0200 || message == 0x0201 || message
            == 0x0202 || message == 0x0204 || message == 0x0205 || message == 0x0207 || message
            == 0x0208 || message == 0x020A),
{
    if message == WM_MOUSEMOVE {
        MouseAction::Move
    } else if message == WM_LBUTTONDOWN {
        MouseAction::LeftDown
    } else if message == WM_LBUTTONUP {
        MouseAction::LeftUp
    } else if message == WM_RBUTTONDOWN {
        MouseAction::RightDown
    } else if message == WM_RBUTTONUP {
        MouseAction::RightUp
    } else if message == WM_MBUTTONDOWN {
        MouseAction::MiddleDown
    } else if message == WM_MBUTTONUP {
        MouseAction::MiddleUp
    } else if message == WM_MOUSEWHEEL {
        MouseAction::Wheel
    } else {
        MouseAction::Unknown
    }
}

/// The direction of a keyboard hook message.
pub fn key_transition(message: u32) -> (transition: KeyTransition)
    ensures
        transition == spec_key_transition(message),
        (transition == KeyTransition::Down) <==> (message == 0x0100 || message == 0x0104),
{
    if message == WM_KEYDOWN || message == WM_SYSKEYDOWN {
        KeyTransition::Down
    } else {
        KeyTransition::Up
    }
}

/// How many events of each origin were counted.
#[derive(Clone, Copy, Debug, PartialEq, Eq, Structural)]
pub struct EventCounts {
    pub keyboard_hardware: u32,
    pub keyboard_injected: u32,
    pub mouse_hardware: u32,
    pub mouse_injected: u32,
}

/// `x + 1`, wrapping around at 2^32 like the atomic counters of the monitor.
pub open spec fn bump(x: u32) -> u32 {
    if x == u32::MAX {
        0
    } else {
        (x + 1) as u32
    }
}

impl EventCounts {
    /// No event counted yet.
    pub open spec fn spec_zero() -> EventCounts {
        EventCounts { keyboard_hardware: 0, keyboard_injected: 0, mouse_hardware: 0, mouse_injected: 0 }
    }

    /// The counts after one more keyboard event of the given origin.
    pub open spec fn with_key(self, hardware: bool) -> EventCounts {
        if hardware {
            EventCounts { keyboard_hardware: bump(self.keyboard_hardware), ..self }
        } else {
            EventCounts { keyboard_injected: bump(self.keyboard_injected), ..self }
        }
    }

    /// The counts after one more mouse event of the given origin.
    pub open spec fn with_mouse(self, hardware: bool) -> EventCounts {
        if hardware {
            EventCounts { mouse_hardware: bump(self.mouse_hardware), ..self }
        } else {
            EventCounts { mouse_injected: bump(self.mouse_injected), ..self }
        }
    }

    /// All the events counted, as a mathematical sum.
    pub open spec fn spec_total(self) -> int {
        self.keyboard_hardware + self.keyboard_injected + self.mouse_hardware + self.mouse_injected
    }

    /// No event counted yet.
    pub fn zero() -> (counts: Self)
        ensures
            counts == Self::spec_zero(),
    {
        EventCounts { keyboard_hardware: 0, keyboard_injected: 0, mouse_hardware: 0, mouse_injected: 0 }
    }

    /// Counts one more keyboard event of the given origin.
    pub fn record_key(&mut self, hardware: bool)
        ensures
            *final(self) == old(self).with_key(hardware),
    {
        if hardware {
            self.keyboard_hardware = self.keyboard_hardware.wrapping_add(1);
        } else {
            self.keyboard_injected = self.keyboard_injected.wrapping_add(1);
        }
    }

    /// Counts one more mouse event of the given origin.
    pub fn record_mouse(&mut self, hardware: bool)
        ensures
            *final(self) == old(self).with_mouse(hardware),
    {
        if hardware {
            self.mouse_hardware = self.mouse_hardware.wrapping_add(1);
        } else {
            self.mouse_injected = self.mouse_injected.wrapping_add(1);
        }
    }
}

/// A keyboard hook event as the monitor classifies it.
#[derive(Clone, Copy, Debug, PartialEq, Eq, Structural)]
pub struct KeyObservation {
    /// Not injected by software.
    pub hardware: bool,
    pub transition: KeyTransition,
}

/// A mouse hook event as the monitor classifies it.
#[derive(Clone, Copy, Debug, PartialEq, Eq, Structural)]
pub struct MouseObservation {
    /// Not injected by software.
    pub hardware: bool,
    pub action: MouseAction,
    /// Whether the event is printed: moves flood the console, so they are
    /// printed only while a test counts.
    pub reported: bool,
}

/// The state of the input monitor: whether a test is counting events, and
/// the counts so far. Events seen while not counting are classified but not
/// counted.
#[derive(Clone, Copy, Debug, PartialEq, Eq, Structural)]
pub struct EventMonitor {
    pub counting: bool,
    pub counts: EventCounts,
}

impl EventMonitor {
    /// A monitor that counts nothing yet.
    pub fn new() -> (monitor: Self)
        ensures
            !monitor.counting,
            monitor.counts == EventCounts::spec_zero(),
    {
        EventMonitor { counting: false, counts: EventCounts::zero() }
    }

    /// Starts or stops counting; the counts stay.
    pub fn set_counting(&mut self, counting: bool)
        ensures
            final(self).counting == counting,
            final(self).counts == old(self).counts,
    {
        self.counting = counting;
    }

    /// Classifies a keyboard hook event (its `KBDLLHOOKSTRUCT` flags and its
    /// message), and counts it if a test is counting.
    pub fn observe_key(&mut self, flags: u32, message: u32) -> (observation: KeyObservation)
        ensures
            observation.hardware == (flags & LLKHF_INJECTED == 0),
            observation.transition == spec_key_transition(message),
            final(self).counting == old(self).counting,
            final(self).counts == (if old(self).counting {
                old(self).counts.with_key(observation.hardware)
            } else {
                old(self).counts
            }),
    {
        let hardware = flags & LLKHF_INJECTED == 0;
        if self.counting {
            self.counts.record_key(hardware);
        }
        KeyObservation { hardware, transition: key_transition(message) }
    }

    /// Classifies a mouse hook event (its `MSLLHOOKSTRUCT` flags and its
    /// message), and counts it if a test is counting.
    pub fn observe_mouse(&mut self, flags: u32, message: u32) -> (observation: MouseObservation)
        ensures
            observation.hardware == (flags & LLMHF_INJECTED == 0),
            observation.action == spec_mouse_action(message),
            observation.reported == (message != WM_MOUSEMOVE || old(self).counting),
            final(self).counting == old(self).counting,
            final(self).counts == (if old(self).counting {
                old(self).counts.with_mouse(observation.hardware)
            } else {
                old(self).counts
            }),
    {
        let hardware = flags & LLMHF_INJECTED == 0;
        if self.counting {
            self.counts.record_mouse(hardware);
        }
        MouseObservation {
            hardware,
            action: mouse_action(message),
            reported: message != WM_MOUSEMOVE || self.counting,
        }
    }
}

/// How a test sent its input.
#[derive(Clone, Copy, Debug, PartialEq, Eq, Structural)]
pub enum TestMethod {
    /// Through this driver: every event should arrive as hardware input.
    Driver,
    /// Through `SendInput`: every event should arrive flagged as injected.
    SendInput,
}

impl TestMethod {
    /// The name printed in the results.
    pub fn name(&self) -> (name: &'static str)
        ensures
            name@ == (match self {
                TestMethod::Driver => "AllunoHInpuD"@,
                TestMethod::SendInput => "SendInput"@,
            }),
    {
        match self {
            TestMethod::Driver => "AllunoHInpuD",
            TestMethod::SendInput => "SendInput",
        }
    }
}

/// The outcome of a test.
#[derive(Clone, Copy, Debug, PartialEq, Eq, Structural)]
pub enum Verdict {
    /// `SendInput` test: events arrived and all were flagged injected.
    AllInjected,
    /// `SendInput` test: some events arrived as hardware, or none arrived.
    UnexpectedHardware,
    /// Driver test: events arrived and none was flagged injected.
    AllHardware,
    /// Driver test: some events were flagged injected.
    SomeInjected,
    /// Driver test: no event arrived (is the driver installed?).
    NoEvents,
}

/// The verdict on a test from its totals.
pub open spec fn spec_verdict(method: TestMethod, hardware: int, injected: int) -> Verdict {
    let total = hardware + injected;
    match method {
        TestMethod::SendInput => if injected == total && total > 0 {
            Verdict::AllInjected
        } else {
            Verdict::UnexpectedHardware
        },
        TestMethod::Driver => if hardware == total && total > 0 {
            Verdict::AllHardware
        } else if injected > 0 {
            Verdict::SomeInjected
        } else {
            Verdict::NoEvents
        },
    }
}

/// What the verdicts mean. A `SendInput` test passes exactly when events
/// arrived and none of them as hardware; any hardware event makes it
/// unexpected. A driver test passes exactly when events arrived and none of
/// them was injected; any injected event fails it; with no event at all it
/// reports that nothing arrived.
pub proof fn lemma_verdict_meaning(method: TestMethod, hardware: int, injected: int)
    requires
        hardware >= 0,
        injected >= 0,
    ensures
        method == TestMethod::SendInput ==> ((spec_verdict(method, hardware, injected)
            == Verdict::AllInjected) <==> (hardware == 0 && injected > 0)),
        method == TestMethod::SendInput ==> ((spec_verdict(method, hardware, injected)
            == Verdict::UnexpectedHardware) <==> (hardware > 0 || injected == 0)),
        method == TestMethod::Driver ==> ((spec_verdict(method, hardware, injected)
            == Verdict::AllHardware) <==> (injected == 0 && hardware > 0)),
        method == TestMethod::Driver ==> ((spec_verdict(method, hardware, injected)
            == Verdict::SomeInjected) <==> injected > 0),
        method == TestMethod::Driver ==> ((spec_verdict(method, hardware, injected)
            == Verdict::NoEvents) <==> (hardware == 0 && injected == 0)),
{
}

/// The results of a test.
#[derive(Clone, Copy, Debug, PartialEq, Eq, Structural)]
pub struct Summary {
    pub counts: EventCounts,
    pub total_hardware: u32,
    pub total_injected: u32,
    pub total: u32,
    pub verdict: Verdict,
}

/// The results of a test that sent its input by `method` and counted
/// `counts`. The totals must fit in 32 bits, as their sums overflow
/// otherwise.
pub fn summarize(method: TestMethod, counts: EventCounts) -> (summary: Summary)
    requires
        counts.spec_total() <= u32::MAX,
    ensures
        summary.counts == counts,
        summary.total_hardware == counts.keyboard_hardware + counts.mouse_hardware,
        summary.total_injected == counts.keyboard_injected + counts.mouse_injected,
        summary.total == counts.spec_total(),
        summary.verdict == spec_verdict(
            method,
            summary.total_hardware as int,
            summary.total_injected as int,
        ),
        method == TestMethod::SendInput ==> ((summary.verdict == Verdict::AllInjected) <==> (
        summary.total_hardware == 0 && summary.total_injected > 0)),
        method == TestMethod::SendInput ==> ((summary.verdict == Verdict::UnexpectedHardware) <==> (
        summary.total_hardware > 0 || summary.total_injected == 0)),
        method == TestMethod::Driver ==> ((summary.verdict == Verdict::AllHardware) <==> (
        summary.total_injected == 0 && summary.total_hardware > 0)),
        method == TestMethod::Driver ==> ((summary.verdict == Verdict::SomeInjected) <==> (
        summary.total_injected > 0)),
        method == TestMethod::Driver ==> ((summary.verdict == Verdict::NoEvents) <==> (
        summary.total_hardware == 0 && summary.total_injected == 0)),
{
    let total_hardware = counts.keyboard_hardware + counts.mouse_hardware;
    let total_injected = counts.keyboard_injected + counts.mouse_injected;
    let total = total_hardware + total_injected;
    let verdict = match method {
        TestMethod::SendInput => {
            if total_injected == total && total > 0 {
                Verdict::AllInjected
            } else {
                Verdict::UnexpectedHardware
            }
        },
        TestMethod::Driver => {
            if total_hardware == total && total > 0 {
                Verdict::AllHardware
            } else if total_injected > 0 {
                Verdict::SomeInjected
            } else {
                Verdict::NoEvents
            }
        },
    };
    Summary { counts, total_hardware, total_injected, total, verdict }
}

/// What the test tool does, from its first argument.
#[derive(Clone, Copy, Debug, PartialEq, Eq, Structural)]
pub enum Mode {
    /// `--driver`: send through the driver, expect hardware input.
    Driver,
    /// `--sendinput`: send through `SendInput`, expect injected input.
    SendInput,
    /// Anything else: only print the events and their origin.
    Monitor,
}

/// The mode that a first argument selects.
pub open spec fn spec_mode(arg: Seq<char>) -> Mode {
    if arg == "--driver"@ {
        Mode::Driver
    } else if arg == "--sendinput"@ {
        Mode::SendInput
    } else {
        Mode::Monitor
    }
}

/// Calls `<str as PartialEq>::eq`, which the standard library documents as
/// comparing the two strings' contents: the result is true exactly when both
/// hold the same characters.
#[verifier::external_body]
fn str_eq(a: &str, b: &str) -> (equal: bool)
    ensures
        equal == (a@ == b@),
{
    a == b
}

/// The mode that the test tool's first argument selects (the empty string
/// when there is none).
pub fn parse_mode(arg: &str) -> (mode: Mode)
    ensures
        mode == spec_mode(arg@),
{
    if str_eq(arg, "--driver") {
        Mode::Driver
    } else if str_eq(arg, "--sendinput") {
        Mode::SendInput
    } else {
        Mode::Monitor
    }
}

} // verus!
