use reveal_winui::buttons::CommonState;
use reveal_winui::keys::Key;
use reveal_winui::slider::{
    slider_key_action, snaps_to_ticks, SliderKeyAction, SliderPointer, SliderPointerAction,
    SliderSnapsTo,
};

#[test]
fn slider_arrow_keys_step_and_home_end_jump() {
    assert_eq!(slider_key_action(Key::ArrowRight, true, false), SliderKeyAction::Step { forward: true });
    assert_eq!(slider_key_action(Key::ArrowUp, true, false), SliderKeyAction::Step { forward: true });
    assert_eq!(slider_key_action(Key::ArrowLeft, true, false), SliderKeyAction::Step { forward: false });
    assert_eq!(slider_key_action(Key::ArrowDown, true, false), SliderKeyAction::Step { forward: false });
    assert_eq!(slider_key_action(Key::ArrowLeft, true, true), SliderKeyAction::Step { forward: true });
    assert_eq!(slider_key_action(Key::Home, true, true), SliderKeyAction::Minimum);
    assert_eq!(slider_key_action(Key::End, true, false), SliderKeyAction::Maximum);
    assert_eq!(slider_key_action(Key::PageUp, true, false), SliderKeyAction::Ignore);
    assert_eq!(slider_key_action(Key::ArrowRight, false, false), SliderKeyAction::Ignore);
}

#[test]
fn snapping_mode() {
    assert!(snaps_to_ticks(SliderSnapsTo::Ticks));
    assert!(!snaps_to_ticks(SliderSnapsTo::StepValues));
}

#[test]
fn pressing_the_track_moves_the_thumb_and_pressing_the_thumb_drags() {
    let mut p = SliderPointer::new();
    assert_eq!(p.pointer_pressed(false, false), SliderPointerAction::Nothing);
    assert_eq!(p, SliderPointer::new());
    assert_eq!(p.pointer_pressed(true, false), SliderPointerAction::MoveThumbToPoint);
    assert!(p.is_pressed);
    assert_eq!(p.pointer_moved(false), SliderPointerAction::MoveThumbToPoint);
    assert_eq!(p.slider_state(true), CommonState::Pressed);
    p.pointer_released(false, true);
    assert!(!p.is_pressed && p.is_thumb_pointer_over);
    assert_eq!(p.thumb_state(true), CommonState::PointerOver);

    let mut q = SliderPointer::new();
    assert_eq!(q.pointer_pressed(true, true), SliderPointerAction::StartDrag);
    assert_eq!(q.pointer_moved(true), SliderPointerAction::DragDelta);
    assert_eq!(q.pointer_moved(false), SliderPointerAction::Nothing);
    assert_eq!(q.thumb_state(true), CommonState::Pressed);
    assert_eq!(q.thumb_state(false), CommonState::Disabled);
    q.pointer_released(true, true);
    assert!(!q.is_dragging && !q.is_thumb_pointer_over);
}

#[test]
fn hover_is_ignored_while_pressed_and_capture_loss_resets() {
    let mut p = SliderPointer::new();
    p.set_pointer_over(true);
    assert_eq!(p.slider_state(true), CommonState::PointerOver);
    p.pointer_hovered(false, true);
    assert!(p.is_thumb_pointer_over);
    p.pointer_pressed(true, false);
    p.pointer_hovered(false, false);
    assert!(p.is_thumb_pointer_over);
    p.pointer_hovered(true, false);
    assert!(p.is_thumb_pointer_over);
    p.pointer_capture_lost();
    assert_eq!(p, SliderPointer::new());
    assert_eq!(p.pointer_moved(true), SliderPointerAction::Nothing);
}
