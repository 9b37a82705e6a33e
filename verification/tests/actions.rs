//! The key events of each action.

use screen_edge::action::{
    alt_shift_tab, alt_tab, ctrl_shift_tab, ctrl_tab, key_sequence, multi_task_view, next_desktop,
    previous_desktop, volume_down, volume_mute, volume_up, Action, Direction, Key, KeyEvent,
};

fn press(key: Key) -> KeyEvent {
    KeyEvent { key, direction: Direction::Press }
}

fn release(key: Key) -> KeyEvent {
    KeyEvent { key, direction: Direction::Release }
}

#[test]
fn keys_go_down_in_order_and_come_up_in_reverse() {
    let events = key_sequence(&[Key::Control, Key::Shift, Key::Alt, Key::Tab]);
    assert_eq!(
        events,
        vec![
            press(Key::Control),
            press(Key::Shift),
            press(Key::Alt),
            press(Key::Tab),
            release(Key::Tab),
            release(Key::Alt),
            release(Key::Shift),
            release(Key::Control),
        ]
    );
}

#[test]
fn no_key_gives_no_event() {
    assert!(key_sequence(&[]).is_empty());
}

#[test]
fn one_key_is_pressed_and_released() {
    assert_eq!(key_sequence(&[Key::Tab]), vec![press(Key::Tab), release(Key::Tab)]);
}

#[test]
fn a_repeated_key_is_pressed_and_released_twice() {
    assert_eq!(
        key_sequence(&[Key::Tab, Key::Tab]),
        vec![press(Key::Tab), press(Key::Tab), release(Key::Tab), release(Key::Tab)]
    );
}

#[test]
fn desktop_switching_holds_control_and_the_windows_key() {
    assert_eq!(
        next_desktop(),
        vec![
            press(Key::Control),
            press(Key::LWin),
            press(Key::RightArrow),
            release(Key::RightArrow),
            release(Key::LWin),
            release(Key::Control),
        ]
    );
    assert_eq!(
        previous_desktop(),
        vec![
            press(Key::Control),
            press(Key::LWin),
            press(Key::LeftArrow),
            release(Key::LeftArrow),
            release(Key::LWin),
            release(Key::Control),
        ]
    );
}

#[test]
fn the_task_view_is_the_windows_key_and_tab() {
    assert_eq!(
        multi_task_view(),
        vec![press(Key::LWin), press(Key::Tab), release(Key::Tab), release(Key::LWin)]
    );
}

#[test]
fn the_volume_actions_are_single_keys() {
    assert_eq!(volume_up(), vec![press(Key::VolumeUp), release(Key::VolumeUp)]);
    assert_eq!(volume_down(), vec![press(Key::VolumeDown), release(Key::VolumeDown)]);
    assert_eq!(volume_mute(), vec![press(Key::VolumeMute), release(Key::VolumeMute)]);
}

#[test]
fn the_tab_actions() {
    assert_eq!(
        ctrl_tab(),
        vec![press(Key::Control), press(Key::Tab), release(Key::Tab), release(Key::Control)]
    );
    assert_eq!(
        ctrl_shift_tab(),
        vec![
            press(Key::Control),
            press(Key::Shift),
            press(Key::Tab),
            release(Key::Tab),
            release(Key::Shift),
            release(Key::Control),
        ]
    );
    assert_eq!(
        alt_tab(),
        vec![press(Key::Alt), press(Key::Tab), release(Key::Tab), release(Key::Alt)]
    );
    assert_eq!(
        alt_shift_tab(),
        vec![
            press(Key::Alt),
            press(Key::Shift),
            press(Key::Tab),
            release(Key::Tab),
            release(Key::Shift),
            release(Key::Alt),
        ]
    );
}

#[test]
fn each_action_has_the_events_of_its_function() {
    assert_eq!(Action::NextDesktop.key_events(), next_desktop());
    assert_eq!(Action::PreviousDesktop.key_events(), previous_desktop());
    assert_eq!(Action::MultiTaskView.key_events(), multi_task_view());
    assert_eq!(Action::VolumeUp.key_events(), volume_up());
    assert_eq!(Action::VolumeDown.key_events(), volume_down());
    assert_eq!(Action::VolumeMute.key_events(), volume_mute());
    assert_eq!(Action::CtrlTab.key_events(), ctrl_tab());
    assert_eq!(Action::CtrlShiftTab.key_events(), ctrl_shift_tab());
    assert_eq!(Action::AltTab.key_events(), alt_tab());
    assert_eq!(Action::AltShiftTab.key_events(), alt_shift_tab());
}

#[test]
fn each_action_has_its_name() {
    assert_eq!(Action::NextDesktop.name(), "next desktop");
    assert_eq!(Action::PreviousDesktop.name(), "previous desktop");
    assert_eq!(Action::MultiTaskView.name(), "multi task view");
    assert_eq!(Action::VolumeUp.name(), "volume up");
    assert_eq!(Action::VolumeDown.name(), "volume down");
    assert_eq!(Action::VolumeMute.name(), "volume mute");
    assert_eq!(Action::CtrlTab.name(), "ctrl tab");
    assert_eq!(Action::CtrlShiftTab.name(), "ctrl shift tab");
    assert_eq!(Action::AltTab.name(), "alt tab");
    assert_eq!(Action::AltShiftTab.name(), "alt shift tab");
}
