//! Slider input: which arrow and navigation keys step the value and in which direction, what a
//! pointer press, move or release on the track or thumb starts, and the visual states of the
//! slider and its thumb.

use vstd::prelude::*;
use crate::buttons::{CommonState, common_state, spec_common_state};
use crate::keys::Key;

verus! {

/// The axis a slider runs along.
#[derive(Clone, Copy, Debug, PartialEq, Eq, Structural)]
pub enum Orientation {
    Horizontal,
    Vertical,
}

/// What the value snaps to while the thumb moves.
#[derive(Clone, Copy, Debug, PartialEq, Eq, Structural)]
pub enum SliderSnapsTo {
    /// Multiples of the step frequency.
    StepValues,
    /// Multiples of the tick frequency.
    Ticks,
}

/// What a key asks of a slider's value.
#[derive(Clone, Copy, Debug, PartialEq, Eq, Structural)]
pub enum SliderKeyAction {
    /// Not handled.
    Ignore,
    /// One step towards the maximum (forward) or the minimum.
    Step { forward: bool },
    /// To the minimum.
    Minimum,
    /// To the maximum.
    Maximum,
}

/// Left and Down step towards the minimum and Right and Up towards the maximum, mirrored when
/// the direction is reversed; Home and End go to the ends. A disabled slider handles no key.
pub open spec fn spec_slider_key_action(key: Key, is_enabled: bool, reversed: bool) -> SliderKeyAction {
    if !is_enabled {
        SliderKeyAction::Ignore
    } else {
        match key {
            Key::ArrowLeft | Key::ArrowDown => SliderKeyAction::Step { forward: reversed },
            Key::ArrowRight | Key::ArrowUp => SliderKeyAction::Step { forward: !reversed },
            Key::Home => SliderKeyAction::Minimum,
            Key::End => SliderKeyAction::Maximum,
            _ => SliderKeyAction::Ignore,
        }
    }
}

/// Decides what a key does to a slider's value.
pub fn slider_key_action(key: Key, is_enabled: bool, reversed: bool) -> (r: SliderKeyAction)
    ensures
        r == spec_slider_key_action(key, is_enabled, reversed),
{
    if !is_enabled {
        return SliderKeyAction::Ignore;
    }
    match key {
        Key::ArrowLeft | Key::ArrowDown => SliderKeyAction::Step { forward: reversed },
        Key::ArrowRight | Key::ArrowUp => SliderKeyAction::Step { forward: !reversed },
        Key::Home => SliderKeyAction::Minimum,
        Key::End => SliderKeyAction::Maximum,
        _ => SliderKeyAction::Ignore,
    }
}

/// Opposite arrows step in opposite directions, whichever way the slider runs.
pub proof fn lemma_opposite_arrows_step_oppositely(reversed: bool)
    ensures
        spec_slider_key_action(Key::ArrowLeft, true, reversed) != spec_slider_key_action(
            Key::ArrowRight,
            true,
            reversed,
        ),
        spec_slider_key_action(Key::ArrowDown, true, reversed) != spec_slider_key_action(
            Key::ArrowUp,
            true,
            reversed,
        ),
        spec_slider_key_action(Key::ArrowLeft, true, reversed) == spec_slider_key_action(
            Key::ArrowRight,
            true,
            !reversed,
        ),
{
}

/// Whether the thumb snaps to the tick frequency rather than the step frequency.
pub fn snaps_to_ticks(snaps_to: SliderSnapsTo) -> (r: bool)
    ensures
        r == (snaps_to == SliderSnapsTo::Ticks),
{
    match snaps_to {
        SliderSnapsTo::Ticks => true,
        SliderSnapsTo::StepValues => false,
    }
}

/// What a pointer event on the slider asks for.
#[derive(Clone, Copy, Debug, PartialEq, Eq, Structural)]
pub enum SliderPointerAction {
    /// Nothing to do.
    Nothing,
    /// The thumb drag starts from the current value at this point.
    StartDrag,
    /// The value follows the pointer's position on the track.
    MoveThumbToPoint,
    /// The thumb moves by the pointer's change since the last move.
    DragDelta,
}

/// The pointer state of a slider and its thumb.
#[derive(Clone, Copy, Debug, PartialEq, Eq, Structural)]
pub struct SliderPointer {
    /// A non-touch pointer is over the control.
    pub is_pointer_over: bool,
    /// The track is pressed and the value follows the pointer.
    pub is_pressed: bool,
    /// The thumb is being dragged.
    pub is_dragging: bool,
    /// A pointer is over the thumb.
    pub is_thumb_pointer_over: bool,
}

impl SliderPointer {
    /// No pointer over or pressing the slider.
    pub fn new() -> (r: SliderPointer)
        ensures
            r == (SliderPointer {
                is_pointer_over: false,
                is_pressed: false,
                is_dragging: false,
                is_thumb_pointer_over: false,
            }),
    {
        SliderPointer {
            is_pointer_over: false,
            is_pressed: false,
            is_dragging: false,
            is_thumb_pointer_over: false,
        }
    }

    /// The slider's common visual state: pressed while the track is pressed.
    pub fn slider_state(&self, is_enabled: bool) -> (r: CommonState)
        ensures
            r == spec_common_state(is_enabled, self.is_pressed, self.is_pointer_over),
    {
        common_state(is_enabled, self.is_pressed, self.is_pointer_over)
    }

    /// The thumb's common visual state: pressed while it is dragged.
    pub fn thumb_state(&self, is_enabled: bool) -> (r: CommonState)
        ensures
            r == spec_common_state(is_enabled, self.is_dragging, self.is_thumb_pointer_over),
    {
        common_state(is_enabled, self.is_dragging, self.is_thumb_pointer_over)
    }

    /// A pointer press: with the primary button, a press on the thumb starts a drag and any
    /// other press moves the thumb to the point and presses the track.
    pub fn pointer_pressed(&mut self, primary: bool, hits_thumb: bool) -> (r: SliderPointerAction)
        ensures
            !primary ==> r == SliderPointerAction::Nothing && *final(self) == *old(self),
            primary && hits_thumb ==> r == SliderPointerAction::StartDrag && *final(self) == (
            SliderPointer { is_dragging: true, ..*old(self) }),
            primary && !hits_thumb ==> r == SliderPointerAction::MoveThumbToPoint && *final(self)
                == (SliderPointer { is_pressed: true, ..*old(self) }),
    {
        if !primary {
            return SliderPointerAction::Nothing;
        }
        if hits_thumb {
            self.is_dragging = true;
            SliderPointerAction::StartDrag
        } else {
            self.is_pressed = true;
            SliderPointerAction::MoveThumbToPoint
        }
    }

    /// A pointer move: a drag follows the pointer when it actually moved, a pressed track
    /// moves the thumb to the point.
    pub fn pointer_moved(&self, moved: bool) -> (r: SliderPointerAction)
        ensures
            r == (if self.is_dragging {
                if moved {
                    SliderPointerAction::DragDelta
                } else {
                    SliderPointerAction::Nothing
                }
            } else if self.is_pressed {
                SliderPointerAction::MoveThumbToPoint
            } else {
                SliderPointerAction::Nothing
            }),
    {
        if self.is_dragging {
            if moved {
                SliderPointerAction::DragDelta
            } else {
                SliderPointerAction::Nothing
            }
        } else if self.is_pressed {
            SliderPointerAction::MoveThumbToPoint
        } else {
            SliderPointerAction::Nothing
        }
    }

    /// The pointer is released: the drag and the press end, and the thumb is hovered when a
    /// non-touch pointer is released over it.
    pub fn pointer_released(&mut self, touch: bool, over_thumb: bool)
        ensures
            *final(self) == (SliderPointer {
                is_dragging: false,
                is_pressed: false,
                is_thumb_pointer_over: !touch && over_thumb,
                ..*old(self)
            }),
    {
        self.is_dragging = false;
        self.is_pressed = false;
        self.is_thumb_pointer_over = !touch && over_thumb;
    }

    /// The pointer capture is lost: everything the pointer held is let go.
    pub fn pointer_capture_lost(&mut self)
        ensures
            *final(self) == SliderPointer::spec_idle(),
    {
        self.is_dragging = false;
        self.is_pressed = false;
        self.is_pointer_over = false;
        self.is_thumb_pointer_over = false;
    }

    /// A hovering pointer: touch is ignored, and while the track holds the pointer the thumb
    /// sees nothing; otherwise the thumb is hovered when the pointer is over it.
    pub fn pointer_hovered(&mut self, touch: bool, over_thumb: bool)
        ensures
            *final(self) == (if touch || old(self).is_pressed || old(self).is_dragging {
                *old(self)
            } else {
                SliderPointer { is_thumb_pointer_over: over_thumb, ..*old(self) }
            }),
    {
        if touch || self.is_pressed || self.is_dragging {
            return ;
        }
        self.is_thumb_pointer_over = over_thumb;
    }

    /// Whether a non-touch pointer is over the control.
    pub fn set_pointer_over(&mut self, over: bool)
        ensures
            *final(self) == (SliderPointer { is_pointer_over: over, ..*old(self) }),
    {
        self.is_pointer_over = over;
    }

    pub open spec fn spec_idle() -> SliderPointer {
        SliderPointer {
            is_pointer_over: false,
            is_pressed: false,
            is_dragging: false,
            is_thumb_pointer_over: false,
        }
    }
}

/// After a release or a lost capture the slider and its thumb no longer show Pressed.
pub proof fn lemma_release_ends_pressed_states(s: SliderPointer, touch: bool, over: bool, is_enabled: bool)
    ensures
        ({
            let r = SliderPointer {
                is_dragging: false,
                is_pressed: false,
                is_thumb_pointer_over: !touch && over,
                ..s
            };
            spec_common_state(is_enabled, r.is_pressed, r.is_pointer_over) != CommonState::Pressed
                && spec_common_state(is_enabled, r.is_dragging, r.is_thumb_pointer_over)
                != CommonState::Pressed
        }),
        spec_common_state(is_enabled, false, false) == (if is_enabled {
            CommonState::Normal
        } else {
            CommonState::Disabled
        }),
{
}

} // verus!
