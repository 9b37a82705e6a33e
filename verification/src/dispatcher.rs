//! The gesture dispatcher: the state machine between the input devices and
//! the key sender.
//!
//! The dispatcher reads no device and sends no key. For each input event it
//! says what its caller has to do next: nothing, find out where the pointer
//! is, find out which window is in front, or carry out an action. The caller
//! reports what it found with `on_pointer` and `on_window`.

use vstd::prelude::*;
use crate::action::Action;
use crate::blacklist::{blocked, in_blacklist, Blacklist};
use crate::config::{action_for, get_action, touch_allowed, touch_config, ActionTable, TouchTable};
use crate::screen_position::{classify, get_screen_position, ScreenPosition};
use crate::screen_size::ScreenGeometry;
use crate::user_operation::UserOperation;

verus! {

/// A button of the mouse.
#[derive(Debug, Clone, Copy, PartialEq, Eq, Structural)]
pub enum MouseButton {
    Left,
    Right,
    Middle,
    Unknown(u8),
}

/// An event of the input devices.
#[derive(Debug, Clone, Copy, PartialEq, Eq, Structural)]
pub enum InputEvent {
    /// The pointer moved to the pixel `(x, y)`.
    MouseMove { x: i32, y: i32 },
    ButtonPress(MouseButton),
    ButtonRelease(MouseButton),
    /// The wheel turned: up or to the right for a positive delta.
    Wheel { delta_x: i64, delta_y: i64 },
    /// Any other event.
    Other,
}

/// What the caller of the dispatcher has to do next.
#[derive(Debug, Clone, Copy, PartialEq, Eq, Structural)]
pub enum Command {
    /// Nothing: wait for the next input event.
    Idle,
    /// Read the pointer's position and report it with `on_pointer`,
    /// together with this gesture.
    LocatePointer(UserOperation),
    /// Read the title of the window in front and report it with
    /// `on_window`, together with this action.
    InspectWindow(Action),
    /// Send the key events of this action.
    Perform(Action),
}

/// Whether the pointer fires a touch when it is sampled in `zone` after
/// `last`. The first sample always fires. A sample in the zone of the one
/// before never fires; a sample in another zone fires where the move is a
/// touch.
pub open spec fn touch_fires(last: Option<ScreenPosition>, zone: ScreenPosition) -> bool {
    match last {
        None => true,
        Some(previous) => previous != zone && touch_allowed(previous, zone),
    }
}

/// The zone that the dispatcher remembers after `event`: the zone of the
/// latest pointer sample.
pub open spec fn next_position(
    last: Option<ScreenPosition>,
    event: InputEvent,
    width: int,
    height: int,
) -> Option<ScreenPosition> {
    match event {
        InputEvent::MouseMove { x, y } => Some(classify(x as int, y as int, width, height)),
        _ => last,
    }
}

/// The touch that `event` makes the dispatcher attempt to dispatch, if any.
pub open spec fn touch_attempt(
    last: Option<ScreenPosition>,
    event: InputEvent,
    width: int,
    height: int,
) -> Option<(ScreenPosition, UserOperation)> {
    match event {
        InputEvent::MouseMove { x, y } => {
            let zone = classify(x as int, y as int, width, height);
            if touch_fires(last, zone) {
                Some((zone, UserOperation::Touch))
            } else {
                None
            }
        },
        _ => None,
    }
}

/// The gesture that `event` makes at the pointer's position, if any: a
/// press of the middle button, or a turn of the wheel up or down.
pub open spec fn pointer_gesture(event: InputEvent) -> Option<UserOperation> {
    match event {
        InputEvent::ButtonPress(MouseButton::Middle) => Some(UserOperation::MiddlePress),
        InputEvent::Wheel { delta_x, delta_y } => if delta_y > 0 {
            Some(UserOperation::ScrollUp)
        } else if delta_y < 0 {
            Some(UserOperation::ScrollDown)
        } else {
            None
        },
        _ => None,
    }
}

/// The first step of dispatching `gesture` in `zone`: where the pair is
/// bound, its action waits for a look at the window in front; where it is
/// not, nothing happens.
pub open spec fn dispatch(
    actions: Map<(ScreenPosition, UserOperation), Action>,
    zone: ScreenPosition,
    gesture: UserOperation,
) -> Command {
    match action_for(actions, zone, gesture) {
        Some(action) => Command::InspectWindow(action),
        None => Command::Idle,
    }
}

/// The command that answers `event`.
pub open spec fn reaction(
    last: Option<ScreenPosition>,
    actions: Map<(ScreenPosition, UserOperation), Action>,
    event: InputEvent,
    width: int,
    height: int,
) -> Command {
    match touch_attempt(last, event, width, height) {
        Some((zone, gesture)) => dispatch(actions, zone, gesture),
        None => match pointer_gesture(event) {
            Some(gesture) => Command::LocatePointer(gesture),
            None => Command::Idle,
        },
    }
}

/// The command that answers the pointer's position, asked for on behalf of
/// `gesture`. Where the position could not be read, `None`, the gesture is
/// dropped.
pub open spec fn pointer_reaction(
    actions: Map<(ScreenPosition, UserOperation), Action>,
    gesture: UserOperation,
    position: Option<(i32, i32)>,
    width: int,
    height: int,
) -> Command {
    match position {
        Some((x, y)) => dispatch(actions, classify(x as int, y as int, width, height), gesture),
        None => Command::Idle,
    }
}

/// The command that answers the title of the window in front, asked for on
/// behalf of `action`: the action is carried out unless the window is
/// blacklisted.
pub open spec fn window_reaction(
    blacklist: Seq<Seq<char>>,
    action: Action,
    window_title: Option<Seq<char>>,
) -> Command {
    if blocked(blacklist, window_title) {
        Command::Idle
    } else {
        Command::Perform(action)
    }
}

/// Two pointer samples in a row that fall in one zone fire at most one
/// touch: the second fires none, whatever came before the first.
pub proof fn lemma_repeated_zone_fires_once(
    last: Option<ScreenPosition>,
    first: (i32, i32),
    second: (i32, i32),
    width: int,
    height: int,
)
    requires
        classify(first.0 as int, first.1 as int, width, height) == classify(
            second.0 as int,
            second.1 as int,
            width,
            height,
        ),
    ensures
        touch_attempt(
            next_position(
                last,
                InputEvent::MouseMove { x: first.0, y: first.1 },
                width,
                height,
            ),
            InputEvent::MouseMove { x: second.0, y: second.1 },
            width,
            height,
        ) is None,
{
}

/// The first pointer sample ever attempts a touch in its zone, whichever
/// zone that is.
pub proof fn lemma_first_sample_fires(x: i32, y: i32, width: int, height: int)
    ensures
        touch_attempt(None, InputEvent::MouseMove { x, y }, width, height) == Some(
            (classify(x as int, y as int, width, height), UserOperation::Touch),
        ),
{
}

/// The dispatcher. It holds the display's geometry, the tables and the
/// blacklist, none of which changes, and the zone of the latest pointer
/// sample.
#[derive(Debug)]
pub struct GestureDispatcher {
    geometry: ScreenGeometry,
    actions: ActionTable,
    touch: TouchTable,
    blacklist: Blacklist,
    last_position: Option<ScreenPosition>,
}

impl GestureDispatcher {
    /// The width of the display.
    pub closed spec fn width(&self) -> int {
        self.geometry.spec_width() as int
    }

    /// The height of the display.
    pub closed spec fn height(&self) -> int {
        self.geometry.spec_height() as int
    }

    /// The bindings of the action table.
    pub closed spec fn actions(&self) -> Map<(ScreenPosition, UserOperation), Action> {
        self.actions@
    }

    /// The titles of the blacklist.
    pub closed spec fn blacklist(&self) -> Seq<Seq<char>> {
        self.blacklist@
    }

    /// The zone of the latest pointer sample; `None` before the first.
    pub closed spec fn spec_last_position(&self) -> Option<ScreenPosition> {
        self.last_position
    }

    /// Whether `other` has the geometry, the action table and the blacklist
    /// of `self`.
    pub open spec fn same_setup(&self, other: &GestureDispatcher) -> bool {
        &&& self.width() == other.width()
        &&& self.height() == other.height()
        &&& self.actions() == other.actions()
        &&& self.blacklist() == other.blacklist()
    }

    /// A dispatcher that has seen no pointer sample yet.
    pub fn new(geometry: ScreenGeometry, actions: ActionTable, blacklist: Blacklist) -> (dispatcher:
        GestureDispatcher)
        ensures
            dispatcher.width() == geometry.spec_width(),
            dispatcher.height() == geometry.spec_height(),
            dispatcher.actions() == actions@,
            dispatcher.blacklist() == blacklist@,
            dispatcher.spec_last_position() is None,
    {
        GestureDispatcher { geometry, actions, touch: touch_config(), blacklist, last_position: None }
    }

    /// The zone of the latest pointer sample; `None` before the first.
    #[verifier::when_used_as_spec(spec_last_position)]
    pub fn last_position(&self) -> (last: Option<ScreenPosition>)
        ensures
            last == self.spec_last_position(),
    {
        self.last_position
    }

    /// Takes an input event in. A pointer sample is classified and
    /// remembered, and fires a touch where `touch_fires` says so; the touch
    /// is dispatched at once. A press of the middle button and a turn of the
    /// wheel up or down ask for the pointer's position. Every other event is
    /// ignored.
    pub fn on_event(&mut self, event: InputEvent) -> (command: Command)
        ensures
            old(self).same_setup(final(self)),
            final(self).spec_last_position() == next_position(
                old(self).spec_last_position(),
                event,
                old(self).width(),
                old(self).height(),
            ),
            command == reaction(
                old(self).spec_last_position(),
                old(self).actions(),
                event,
                old(self).width(),
                old(self).height(),
            ),
    {
        match event {
            InputEvent::ButtonPress(button) => match button {
                MouseButton::Middle => Command::LocatePointer(UserOperation::MiddlePress),
                _ => Command::Idle,
            },
            InputEvent::MouseMove { x, y } => {
                let now_position: ScreenPosition = get_screen_position(x, y, &self.geometry);
                let fires: bool = match self.last_position {
                    None => true,
                    Some(last_position) => last_position != now_position && self.touch.allows(
                        last_position,
                        now_position,
                    ),
                };
                self.last_position = Some(now_position);
                if fires {
                    self.execute(now_position, UserOperation::Touch)
                } else {
                    Command::Idle
                }
            },
            InputEvent::Wheel { delta_x: _, delta_y } => {
                if delta_y == 0 {
                    Command::Idle
                } else if delta_y > 0 {
                    Command::LocatePointer(UserOperation::ScrollUp)
                } else {
                    Command::LocatePointer(UserOperation::ScrollDown)
                }
            },
            _ => Command::Idle,
        }
    }

    /// Takes in the pointer's position, read on behalf of `gesture`, or
    /// `None` where it could not be read: the gesture is dispatched in the
    /// zone of that position. The remembered zone is not touched.
    pub fn on_pointer(&self, gesture: UserOperation, position: Option<(i32, i32)>) -> (command:
        Command)
        ensures
            command == pointer_reaction(
                self.actions(),
                gesture,
                position,
                self.width(),
                self.height(),
            ),
    {
        match position {
            Some((mouse_x, mouse_y)) => {
                let screen_position: ScreenPosition = get_screen_position(
                    mouse_x,
                    mouse_y,
                    &self.geometry,
                );
                self.execute(screen_position, gesture)
            },
            None => Command::Idle,
        }
    }

    /// Dispatches `user_operation` in `screen_position` as far as the
    /// action table decides: a bound pair asks for the window in front, an
    /// unbound one for nothing.
    pub fn execute(&self, screen_position: ScreenPosition, user_operation: UserOperation) -> (command:
        Command)
        ensures
            command == dispatch(self.actions(), screen_position, user_operation),
    {
        match get_action(&self.actions, screen_position, user_operation) {
            Some(action) => Command::InspectWindow(action),
            None => Command::Idle,
        }
    }

    /// Takes in the title of the window in front, read on behalf of
    /// `action`, or `None` where it could not be read: the action is to be
    /// carried out unless the title is on the blacklist.
    pub fn on_window(&self, action: Action, window_title: Option<&str>) -> (command: Command)
        ensures
            command == window_reaction(
                self.blacklist(),
                action,
                match window_title {
                    Some(title) => Some(title@),
                    None => None,
                },
            ),
    {
        if in_blacklist(&self.blacklist, window_title) {
            Command::Idle
        } else {
            Command::Perform(action)
        }
    }
}

} // verus!
