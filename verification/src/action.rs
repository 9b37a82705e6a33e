//! Actions, and the key events that carry each of them out.
//!
//! An action is one key combination: its keys are pressed in order and then
//! released in the opposite order.

use vstd::prelude::*;

verus! {

/// An effect on the desktop that a gesture can trigger.
#[derive(Debug, Clone, Copy, PartialEq, Eq, Hash, Structural)]
pub enum Action {
    NextDesktop,
    PreviousDesktop,
    MultiTaskView,
    VolumeUp,
    VolumeDown,
    VolumeMute,
    CtrlTab,
    CtrlShiftTab,
    AltTab,
    AltShiftTab,
}

/// A key of the keyboard that an action uses.
#[derive(Debug, Clone, Copy, PartialEq, Eq, Hash, Structural)]
pub enum Key {
    Control,
    Shift,
    Alt,
    /// The left Windows key.
    LWin,
    Tab,
    LeftArrow,
    RightArrow,
    VolumeUp,
    VolumeDown,
    VolumeMute,
}

/// Whether a key goes down or comes up.
#[derive(Debug, Clone, Copy, PartialEq, Eq, Hash, Structural)]
pub enum Direction {
    Press,
    Release,
}

/// One key going down or coming up.
#[derive(Debug, Clone, Copy, PartialEq, Eq, Hash, Structural)]
pub struct KeyEvent {
    pub key: Key,
    pub direction: Direction,
}

/// The events of one key combination: every key of `keys` pressed, first to
/// last, then every key released, last to first.
pub open spec fn key_events(keys: Seq<Key>) -> Seq<KeyEvent> {
    Seq::new(
        2 * keys.len(),
        |i: int|
            if i < keys.len() {
                KeyEvent { key: keys[i], direction: Direction::Press }
            } else {
                KeyEvent { key: keys[2 * keys.len() - 1 - i], direction: Direction::Release }
            },
    )
}

impl Action {
    /// The keys of the action's combination, in the order in which they are
    /// pressed.
    pub open spec fn keys(self) -> Seq<Key> {
        match self {
            Action::NextDesktop => seq![Key::Control, Key::LWin, Key::RightArrow],
            Action::PreviousDesktop => seq![Key::Control, Key::LWin, Key::LeftArrow],
            Action::MultiTaskView => seq![Key::LWin, Key::Tab],
            Action::VolumeUp => seq![Key::VolumeUp],
            Action::VolumeDown => seq![Key::VolumeDown],
            Action::VolumeMute => seq![Key::VolumeMute],
            Action::CtrlTab => seq![Key::Control, Key::Tab],
            Action::CtrlShiftTab => seq![Key::Control, Key::Shift, Key::Tab],
            Action::AltTab => seq![Key::Alt, Key::Tab],
            Action::AltShiftTab => seq![Key::Alt, Key::Shift, Key::Tab],
        }
    }

    /// The name under which the action is reported.
    pub open spec fn spec_name(self) -> Seq<char> {
        match self {
            Action::NextDesktop => "next desktop"@,
            Action::PreviousDesktop => "previous desktop"@,
            Action::MultiTaskView => "multi task view"@,
            Action::VolumeUp => "volume up"@,
            Action::VolumeDown => "volume down"@,
            Action::VolumeMute => "volume mute"@,
            Action::CtrlTab => "ctrl tab"@,
            Action::CtrlShiftTab => "ctrl shift tab"@,
            Action::AltTab => "alt tab"@,
            Action::AltShiftTab => "alt shift tab"@,
        }
    }

    /// The name under which the action is reported.
    pub fn name(self) -> (name: &'static str)
        ensures
            name@ == self.spec_name(),
    {
        match self {
            Action::NextDesktop => "next desktop",
            Action::PreviousDesktop => "previous desktop",
            Action::MultiTaskView => "multi task view",
            Action::VolumeUp => "volume up",
            Action::VolumeDown => "volume down",
            Action::VolumeMute => "volume mute",
            Action::CtrlTab => "ctrl tab",
            Action::CtrlShiftTab => "ctrl shift tab",
            Action::AltTab => "alt tab",
            Action::AltShiftTab => "alt shift tab",
        }
    }

    /// The key events that carry the action out.
    pub fn key_events(self) -> (events: Vec<KeyEvent>)
        ensures
            events@ == key_events(self.keys()),
    {
        match self {
            Action::NextDesktop => next_desktop(),
            Action::PreviousDesktop => previous_desktop(),
            Action::MultiTaskView => multi_task_view(),
            Action::VolumeUp => volume_up(),
            Action::VolumeDown => volume_down(),
            Action::VolumeMute => volume_mute(),
            Action::CtrlTab => ctrl_tab(),
            Action::CtrlShiftTab => ctrl_shift_tab(),
            Action::AltTab => alt_tab(),
            Action::AltShiftTab => alt_shift_tab(),
        }
    }
}

/// The events that press `keys` in order and release them in reverse order.
pub fn key_sequence(keys: &[Key]) -> (events: Vec<KeyEvent>)
    ensures
        events@ == key_events(keys@),
{
    let count: usize = keys.len();
    let mut events: Vec<KeyEvent> = Vec::new();
    let mut pressed: usize = 0;
    while pressed < count
        invariant
            count == keys@.len(),
            pressed <= count,
            events@.len() == pressed,
            forall|i: int| 0 <= i < pressed ==> events@[i] == key_events(keys@)[i],
        decreases count - pressed,
    {
        events.push(KeyEvent { key: keys[pressed], direction: Direction::Press });
        pressed = pressed + 1;
    }
    let mut held: usize = count;
    while held > 0
        invariant
            count == keys@.len(),
            held <= count,
            events@.len() == 2 * count - held,
            forall|i: int| 0 <= i < events@.len() ==> events@[i] == key_events(keys@)[i],
        decreases held,
    {
        held = held - 1;
        events.push(KeyEvent { key: keys[held], direction: Direction::Release });
    }
    assert(events@ =~= key_events(keys@));
    events
}

pub fn next_desktop() -> (events: Vec<KeyEvent>)
    ensures
        events@ == key_events(Action::NextDesktop.keys()),
{
    let keys: Vec<Key> = vec![Key::Control, Key::LWin, Key::RightArrow];
    assert(keys@ =~= Action::NextDesktop.keys());
    key_sequence(keys.as_slice())
}

pub fn previous_desktop() -> (events: Vec<KeyEvent>)
    ensures
        events@ == key_events(Action::PreviousDesktop.keys()),
{
    let keys: Vec<Key> = vec![Key::Control, Key::LWin, Key::LeftArrow];
    assert(keys@ =~= Action::PreviousDesktop.keys());
    key_sequence(keys.as_slice())
}

pub fn multi_task_view() -> (events: Vec<KeyEvent>)
    ensures
        events@ == key_events(Action::MultiTaskView.keys()),
{
    let keys: Vec<Key> = vec![Key::LWin, Key::Tab];
    assert(keys@ =~= Action::MultiTaskView.keys());
    key_sequence(keys.as_slice())
}

pub fn volume_up() -> (events: Vec<KeyEvent>)
    ensures
        events@ == key_events(Action::VolumeUp.keys()),
{
    let keys: Vec<Key> = vec![Key::VolumeUp];
    assert(keys@ =~= Action::VolumeUp.keys());
    key_sequence(keys.as_slice())
}

pub fn volume_down() -> (events: Vec<KeyEvent>)
    ensures
        events@ == key_events(Action::VolumeDown.keys()),
{
    let keys: Vec<Key> = vec![Key::VolumeDown];
    assert(keys@ =~= Action::VolumeDown.keys());
    key_sequence(keys.as_slice())
}

pub fn volume_mute() -> (events: Vec<KeyEvent>)
    ensures
        events@ == key_events(Action::VolumeMute.keys()),
{
    let keys: Vec<Key> = vec![Key::VolumeMute];
    assert(keys@ =~= Action::VolumeMute.keys());
    key_sequence(keys.as_slice())
}

pub fn ctrl_tab() -> (events: Vec<KeyEvent>)
    ensures
        events@ == key_events(Action::CtrlTab.keys()),
{
    let keys: Vec<Key> = vec![Key::Control, Key::Tab];
    assert(keys@ =~= Action::CtrlTab.keys());
    key_sequence(keys.as_slice())
}

pub fn ctrl_shift_tab() -> (events: Vec<KeyEvent>)
    ensures
        events@ == key_events(Action::CtrlShiftTab.keys()),
{
    let keys: Vec<Key> = vec![Key::Control, Key::Shift, Key::Tab];
    assert(keys@ =~= Action::CtrlShiftTab.keys());
    key_sequence(keys.as_slice())
}

pub fn alt_tab() -> (events: Vec<KeyEvent>)
    ensures
        events@ == key_events(Action::AltTab.keys()),
{
    let keys: Vec<Key> = vec![Key::Alt, Key::Tab];
    assert(keys@ =~= Action::AltTab.keys());
    key_sequence(keys.as_slice())
}

pub fn alt_shift_tab() -> (events: Vec<KeyEvent>)
    ensures
        events@ == key_events(Action::AltShiftTab.keys()),
{
    let keys: Vec<Key> = vec![Key::Alt, Key::Shift, Key::Tab];
    assert(keys@ =~= Action::AltShiftTab.keys());
    key_sequence(keys.as_slice())
}

} // verus!
