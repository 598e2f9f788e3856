use reveal_winui::buttons::{
    common_state, is_press_key, next_is_checked, split_button_key, CommonState, RepeatButtonInput,
    RepeatOutcome, SplitButtonInput, SplitButtonVisualState, SplitKeyAction, SwitchKeyOutcome,
    TickPlacement, TimerCommand, ToggleSwitchInput,
};
use reveal_winui::keys::{Key, KeyPhase};

fn outcome(handled: bool, click: bool, timer: TimerCommand) -> RepeatOutcome {
    RepeatOutcome { handled, click, timer }
}

fn idle_split() -> SplitButtonInput {
    SplitButtonInput {
        is_enabled: true,
        flyout_open: false,
        last_pointer_touch: false,
        key_down: false,
        primary_pressed: false,
        secondary_pressed: false,
        primary_hovered: false,
        secondary_hovered: false,
    }
}

#[test]
fn common_state_precedence() {
    assert_eq!(common_state(false, true, true), CommonState::Disabled);
    assert_eq!(common_state(true, true, true), CommonState::Pressed);
    assert_eq!(common_state(true, false, true), CommonState::PointerOver);
    assert_eq!(common_state(true, false, false), CommonState::Normal);
}

#[test]
fn toggle_cycles() {
    assert_eq!(next_is_checked(Some(false), false), Some(true));
    assert_eq!(next_is_checked(Some(true), false), Some(false));
    assert_eq!(next_is_checked(Some(true), true), None);
    assert_eq!(next_is_checked(None, true), Some(false));
    assert_eq!(next_is_checked(None, false), Some(false));
    for start in [Some(false), Some(true), None] {
        let mut v = start;
        for _ in 0..3 {
            v = next_is_checked(v, true);
        }
        assert_eq!(v, start);
    }
}

#[test]
fn tick_bars_shown_per_placement() {
    assert!(TickPlacement::Outside.shows_top_left() && TickPlacement::Outside.shows_bottom_right());
    assert!(TickPlacement::TopLeft.shows_top_left() && !TickPlacement::TopLeft.shows_bottom_right());
    assert!(!TickPlacement::BottomRight.shows_top_left() && TickPlacement::BottomRight.shows_bottom_right());
    assert!(TickPlacement::Inline.shows_inline() && !TickPlacement::Inline.shows_top_left());
    assert!(!TickPlacement::Hidden.shows_inline() && !TickPlacement::Hidden.shows_bottom_right());
}

#[test]
fn split_button_visual_states() {
    assert_eq!(idle_split().visual_state(), SplitButtonVisualState::Normal);
    assert_eq!(
        SplitButtonInput { is_enabled: false, flyout_open: true, ..idle_split() }.visual_state(),
        SplitButtonVisualState::Disabled
    );
    assert_eq!(
        SplitButtonInput { flyout_open: true, primary_pressed: true, ..idle_split() }.visual_state(),
        SplitButtonVisualState::FlyoutOpen
    );
    assert_eq!(
        SplitButtonInput { last_pointer_touch: true, secondary_pressed: true, ..idle_split() }
            .visual_state(),
        SplitButtonVisualState::TouchPressed
    );
    assert_eq!(
        SplitButtonInput { key_down: true, ..idle_split() }.visual_state(),
        SplitButtonVisualState::TouchPressed
    );
    assert_eq!(
        SplitButtonInput { primary_hovered: true, secondary_pressed: true, ..idle_split() }
            .visual_state(),
        SplitButtonVisualState::PrimaryPointerOver
    );
    assert_eq!(
        SplitButtonInput { secondary_hovered: true, ..idle_split() }.visual_state(),
        SplitButtonVisualState::SecondaryPointerOver
    );
}

#[test]
fn press_keys() {
    for key in [Key::Space, Key::Enter, Key::NumpadEnter, Key::GamepadA] {
        assert!(is_press_key(key));
    }
    assert!(!is_press_key(Key::Escape));
}

#[test]
fn split_button_keys_click_on_release_and_open_the_flyout() {
    let mut down = false;
    assert_eq!(split_button_key(&mut down, Key::Enter, KeyPhase::Down, true, false), SplitKeyAction::Handle);
    assert!(down);
    assert_eq!(split_button_key(&mut down, Key::Enter, KeyPhase::Up, true, false), SplitKeyAction::Click);
    assert!(!down);
    assert_eq!(split_button_key(&mut down, Key::Space, KeyPhase::Up, false, false), SplitKeyAction::Ignore);
    assert_eq!(split_button_key(&mut down, Key::F4, KeyPhase::Up, true, false), SplitKeyAction::OpenFlyout);
    assert_eq!(
        split_button_key(&mut down, Key::ArrowDown, KeyPhase::Up, true, true),
        SplitKeyAction::OpenFlyout
    );
    assert_eq!(split_button_key(&mut down, Key::ArrowDown, KeyPhase::Up, true, false), SplitKeyAction::Ignore);
    assert_eq!(split_button_key(&mut down, Key::F4, KeyPhase::Up, false, false), SplitKeyAction::Ignore);
}

#[test]
fn a_pointer_press_clicks_at_once_and_starts_the_delay() {
    let mut s = RepeatButtonInput::new();
    assert_eq!(s.pointer_pressed(true, true), outcome(true, true, TimerCommand::StartAtDelay));
    assert!(s.pressed && s.pointer_causing_repeat && s.timer_running);
    assert_eq!(s.tick(), outcome(true, true, TimerCommand::RestartAtInterval));
    assert_eq!(s.pointer_moved(false), outcome(true, false, TimerCommand::Keep));
    assert_eq!(s.tick(), outcome(true, false, TimerCommand::Keep));
    assert!(!s.timer_running);
    assert_eq!(s.pointer_moved(true), outcome(true, false, TimerCommand::StartAtDelay));
    assert_eq!(s.pointer_released(false), outcome(true, false, TimerCommand::Stop));
    assert!(!s.pressed && !s.timer_running);
}

#[test]
fn presses_of_a_disabled_or_secondary_button_do_nothing() {
    let mut s = RepeatButtonInput::new();
    assert_eq!(s.pointer_pressed(false, true), outcome(false, false, TimerCommand::Keep));
    assert_eq!(s.pointer_pressed(true, false), outcome(false, false, TimerCommand::Keep));
    assert_eq!(s, RepeatButtonInput::new());
    assert_eq!(s.key_event(false, Key::Space, KeyPhase::Down), outcome(false, false, TimerCommand::Keep));
}

#[test]
fn space_repeats_and_enter_clicks_once() {
    let mut s = RepeatButtonInput::new();
    assert_eq!(s.key_event(true, Key::Space, KeyPhase::Down), outcome(true, true, TimerCommand::StartAtDelay));
    assert!(s.should_repeat());
    assert_eq!(s.key_event(true, Key::Space, KeyPhase::Repeat), outcome(true, false, TimerCommand::Keep));
    assert_eq!(s.key_event(true, Key::Space, KeyPhase::Up), outcome(true, false, TimerCommand::Stop));
    assert!(!s.pressed && !s.key_down);

    let mut e = RepeatButtonInput::new();
    assert_eq!(e.key_event(true, Key::Enter, KeyPhase::Down), outcome(true, true, TimerCommand::Keep));
    assert!(!e.should_repeat());
    assert_eq!(e.key_event(true, Key::Enter, KeyPhase::Up), outcome(true, false, TimerCommand::Keep));
    assert!(!e.pressed);
}

#[test]
fn another_key_ends_a_keyboard_press() {
    let mut s = RepeatButtonInput::new();
    s.key_event(true, Key::Enter, KeyPhase::Down);
    assert_eq!(s.key_event(true, Key::Tab, KeyPhase::Down), outcome(false, false, TimerCommand::Keep));
    assert!(!s.pressed && !s.key_down);
}

#[test]
fn reset_releases_everything() {
    let mut s = RepeatButtonInput::new();
    s.pointer_pressed(true, true);
    s.key_event(true, Key::Space, KeyPhase::Down);
    assert_eq!(s.reset(), outcome(true, false, TimerCommand::Stop));
    assert!(!s.pressed && !s.key_down && !s.pointer_causing_repeat && !s.keyboard_causing_repeat);
    assert_eq!(s.update_repeat_state(), TimerCommand::Keep);
}

#[test]
fn switch_toggles_once_per_space_press() {
    let mut s = ToggleSwitchInput::new();
    assert_eq!(
        s.key_event(true, Key::Space, KeyPhase::Down),
        SwitchKeyOutcome { handled: true, toggle: false }
    );
    assert_eq!(s.key_event(true, Key::Space, KeyPhase::Up), SwitchKeyOutcome { handled: true, toggle: true });
    assert_eq!(
        s.key_event(true, Key::Space, KeyPhase::Up),
        SwitchKeyOutcome { handled: false, toggle: false }
    );
    assert_eq!(
        s.key_event(true, Key::GamepadA, KeyPhase::Up),
        SwitchKeyOutcome { handled: true, toggle: true }
    );
    assert_eq!(
        s.key_event(false, Key::Space, KeyPhase::Down),
        SwitchKeyOutcome { handled: false, toggle: false }
    );
}

#[test]
fn switch_drag_toggles_past_the_middle() {
    let mut s = ToggleSwitchInput::new();
    s.drag_started();
    assert!(s.is_dragging && !s.was_dragged);
    assert_eq!(
        s.key_event(true, Key::Space, KeyPhase::Down),
        SwitchKeyOutcome { handled: false, toggle: false }
    );
    s.drag_moved(true);
    assert!(!s.was_dragged);
    s.drag_moved(false);
    assert!(s.drag_completed(false, false, true));
    assert!(!s.is_dragging);
    s.drag_started();
    assert!(!s.drag_completed(true, true, false));
    s.drag_started();
    s.drag_moved(false);
    assert!(!s.drag_completed(true, false, true));
    s.drag_started();
    s.drag_cancelled();
    assert!(!s.is_dragging);
    s.hovered = true;
    s.disabled();
    assert!(!s.hovered && !s.handled_key_down && !s.is_dragging);
}
