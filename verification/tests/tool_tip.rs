use reveal_winui::keys::Key;
use reveal_winui::placement::PlacementMode;
use reveal_winui::tool_tip::{
    anchors_at_pointer, default_offset, is_automatic, pointer_action, resolve_side,
    show_delay_millis, special_key, HoverStack, InputMode, PointerEventKind, ToolTipPointerAction,
    CLOSE_FADE_MILLIS, RECENT_CLOSE_MILLIS,
};
use reveal_winui::tool_tip_service::{ToolTipCommand, ToolTipService};

#[test]
fn show_delays() {
    assert_eq!(show_delay_millis(InputMode::Touch, false), 400);
    assert_eq!(show_delay_millis(InputMode::Touch, true), 0);
    assert_eq!(show_delay_millis(InputMode::Mouse, false), 800);
    assert_eq!(show_delay_millis(InputMode::Mouse, true), 400);
    assert_eq!(show_delay_millis(InputMode::Keyboard, true), 800);
    assert_eq!(show_delay_millis(InputMode::Explicit, false), 800);
    assert_eq!(RECENT_CLOSE_MILLIS, 200);
    assert_eq!(CLOSE_FADE_MILLIS, 150);
}

#[test]
fn special_keys_keep_the_tooltip_open() {
    for key in [Key::Alt, Key::Space, Key::Home, Key::PageDown, Key::ArrowUp, Key::Delete] {
        assert!(special_key(key));
    }
    for key in [Key::Enter, Key::Escape, Key::Tab, Key::F4, Key::Other] {
        assert!(!special_key(key));
    }
}

#[test]
fn automatic_only_when_enabled_and_uncontrolled() {
    assert!(is_automatic(true, false));
    assert!(!is_automatic(true, true));
    assert!(!is_automatic(false, false));
}

#[test]
fn pointer_events_on_the_active_tooltip() {
    let act = |event, input, open| pointer_action(event, true, true, true, true, input, open);
    assert_eq!(act(PointerEventKind::Down, InputMode::Touch, false), ToolTipPointerAction::Ignore);
    assert_eq!(act(PointerEventKind::Down, InputMode::Touch, true), ToolTipPointerAction::Close);
    assert_eq!(act(PointerEventKind::Down, InputMode::Mouse, false), ToolTipPointerAction::Close);
    assert_eq!(act(PointerEventKind::Up, InputMode::Touch, true), ToolTipPointerAction::Close);
    assert_eq!(act(PointerEventKind::Up, InputMode::Mouse, true), ToolTipPointerAction::Ignore);
    assert_eq!(act(PointerEventKind::Scroll, InputMode::Mouse, true), ToolTipPointerAction::Close);
    assert_eq!(act(PointerEventKind::Move, InputMode::Mouse, false), ToolTipPointerAction::TrackPointer);
    assert_eq!(act(PointerEventKind::Hover, InputMode::Mouse, true), ToolTipPointerAction::CheckSafeZone);
    assert_eq!(act(PointerEventKind::Other, InputMode::Mouse, true), ToolTipPointerAction::Ignore);
}

#[test]
fn an_inactive_owner_begins_only_when_innermost_and_nothing_is_active() {
    assert_eq!(
        pointer_action(PointerEventKind::Hover, true, false, false, true, InputMode::Mouse, false),
        ToolTipPointerAction::BeginMouse
    );
    assert_eq!(
        pointer_action(PointerEventKind::Hover, true, false, true, true, InputMode::Mouse, false),
        ToolTipPointerAction::Ignore
    );
    assert_eq!(
        pointer_action(PointerEventKind::Move, true, false, false, false, InputMode::Mouse, false),
        ToolTipPointerAction::Ignore
    );
    assert_eq!(
        pointer_action(PointerEventKind::Down, true, false, false, true, InputMode::Mouse, false),
        ToolTipPointerAction::Ignore
    );
    assert_eq!(
        pointer_action(PointerEventKind::Down, false, true, true, true, InputMode::Mouse, true),
        ToolTipPointerAction::Ignore
    );
}

#[test]
fn hover_stack_keeps_the_innermost_owner_on_top() {
    let mut s = HoverStack::new();
    s.enter(1);
    s.enter(2);
    assert!(s.is_top(2) && !s.is_top(1));
    s.enter(1);
    assert_eq!(s.hovered, vec![1, 2]);
    s.leave(2);
    assert!(s.is_top(1));
    s.leave(7);
    assert_eq!(s.hovered, vec![1]);
    s.leave(1);
    assert!(!s.is_top(1));
    assert!(s.hovered.is_empty());
}

#[test]
fn default_offsets_by_input() {
    assert_eq!(default_offset(PlacementMode::Top, InputMode::Explicit), 0);
    assert_eq!(default_offset(PlacementMode::Top, InputMode::Keyboard), 12);
    assert_eq!(default_offset(PlacementMode::Bottom, InputMode::Mouse), 20);
    assert_eq!(default_offset(PlacementMode::Left, InputMode::Touch), 44);
    assert_eq!(default_offset(PlacementMode::Mouse, InputMode::Touch), 0);
    assert_eq!(default_offset(PlacementMode::Mouse, InputMode::Keyboard), 12);
}

#[test]
fn tooltip_sides_mirror_and_mouse_falls_back_to_top() {
    assert_eq!(resolve_side(PlacementMode::Left, true, InputMode::Mouse), PlacementMode::Right);
    assert_eq!(resolve_side(PlacementMode::Right, true, InputMode::Mouse), PlacementMode::Left);
    assert_eq!(resolve_side(PlacementMode::Left, false, InputMode::Mouse), PlacementMode::Left);
    assert_eq!(resolve_side(PlacementMode::Mouse, false, InputMode::Keyboard), PlacementMode::Top);
    assert_eq!(resolve_side(PlacementMode::Mouse, true, InputMode::Touch), PlacementMode::Mouse);
    assert!(anchors_at_pointer(false, InputMode::Mouse));
    assert!(!anchors_at_pointer(true, InputMode::Mouse));
    assert!(!anchors_at_pointer(false, InputMode::Keyboard));
}

#[test]
fn hovering_an_owner_opens_its_tooltip_after_the_mouse_delay() {
    let mut s = ToolTipService::new();
    let a = s.add_owner();
    assert_eq!(s.enter(a, true), vec![ToolTipCommand::StartOpenTimer { owner: a, delay_millis: 800 }]);
    assert_eq!(s.active, Some(a));
    assert_eq!(s.open_timer_fired(a, true), vec![ToolTipCommand::ShowOverlay { owner: a, epoch: 1 }]);
    assert!(s.owners[a].open && !s.owners[a].visible);
    assert_eq!(s.frame_shown(a, 1), vec![ToolTipCommand::RaiseOpened { owner: a }]);
    assert!(s.owners[a].visible);
    assert_eq!(
        s.pointer_event(a, PointerEventKind::Move, true, false),
        vec![ToolTipCommand::RestartRecentTimer, ToolTipCommand::StartCloseTimer { owner: a, epoch: 2 }]
    );
    assert_eq!(s.active, None);
    assert!(s.recent_close && s.owners[a].closing);
    assert_eq!(s.fade_finished(a, 1), vec![]);
    assert_eq!(
        s.fade_finished(a, 2),
        vec![ToolTipCommand::HideOverlay { owner: a }, ToolTipCommand::RaiseClosed { owner: a }]
    );
    assert!(!s.owners[a].open && !s.owners[a].closing);
}

#[test]
fn a_second_owner_takes_over_with_the_shorter_delay() {
    let mut s = ToolTipService::new();
    let a = s.add_owner();
    let b = s.add_owner();
    s.enter(a, true);
    s.open_timer_fired(a, true);
    s.frame_shown(a, 1);
    assert_eq!(
        s.enter(b, true),
        vec![
            ToolTipCommand::RestartRecentTimer,
            ToolTipCommand::StartCloseTimer { owner: a, epoch: 2 },
            ToolTipCommand::StartOpenTimer { owner: b, delay_millis: 400 }
        ]
    );
    assert_eq!(s.active, Some(b));
    assert!(s.owners[a].suppressed);
    s.recent_timer_fired();
    assert!(!s.recent_close);
    assert_eq!(s.leave(b), vec![ToolTipCommand::CancelOpenTimer { owner: b }]);
    assert_eq!(s.active, None);
    assert!(!s.owners[b].suppressed);
    assert!(s.hovered.is_top(a));
}

#[test]
fn keys_close_the_active_tooltip_unless_special() {
    let mut s = ToolTipService::new();
    let a = s.add_owner();
    s.enter(a, true);
    s.open_timer_fired(a, true);
    assert_eq!(s.key_down(a, Key::Space), vec![]);
    assert!(s.owners[a].open && s.active == Some(a));
    assert_eq!(
        s.key_down(a, Key::Enter),
        vec![ToolTipCommand::RestartRecentTimer, ToolTipCommand::StartCloseTimer { owner: a, epoch: 2 }]
    );
    assert_eq!(s.show(a, true), vec![ToolTipCommand::CancelCloseTimer { owner: a }]);
    assert!(s.owners[a].visible && !s.owners[a].closing);
}

#[test]
fn touch_and_keyboard_focus_begin_with_their_delays() {
    let mut s = ToolTipService::new();
    let a = s.add_owner();
    assert_eq!(s.touch_down(a, true), vec![ToolTipCommand::StartOpenTimer { owner: a, delay_millis: 400 }]);
    assert_eq!(s.pointer_event(a, PointerEventKind::Down, true, true), vec![]);
    assert!(s.pointer_input);
    assert_eq!(s.focus_changed(a, true, true), vec![]);
    assert_eq!(s.pointer_event(a, PointerEventKind::Up, true, true), vec![ToolTipCommand::CancelOpenTimer { owner: a }]);
    let b = s.add_owner();
    s.key_down(b, Key::Tab);
    assert!(!s.pointer_input);
    assert_eq!(s.focus_changed(b, true, true), vec![ToolTipCommand::StartOpenTimer { owner: b, delay_millis: 800 }]);
    assert_eq!(s.focus_changed(b, false, true), vec![ToolTipCommand::CancelOpenTimer { owner: b }]);
    assert_eq!(s.active, None);
}

#[test]
fn manual_tooltips_follow_their_controlled_value() {
    let mut s = ToolTipService::new();
    let a = s.add_owner();
    assert_eq!(s.enter(a, false), vec![]);
    assert_eq!(s.controlled_change(a, true, true), vec![ToolTipCommand::ShowOverlay { owner: a, epoch: 1 }]);
    assert_eq!(s.owners[a].input, InputMode::Explicit);
    assert_eq!(s.resized(a), vec![]);
    assert_eq!(
        s.controlled_change(a, true, false),
        vec![ToolTipCommand::RestartRecentTimer, ToolTipCommand::StartCloseTimer { owner: a, epoch: 2 }]
    );
    assert_eq!(s.dispose(a), vec![ToolTipCommand::CancelCloseTimer { owner: a }]);
    assert!(!s.hovered.is_top(a));
}
