//! Button state: the common visual state every control derives from its input flags, the
//! toggle cycle of a toggle button, a split button's visual states and key handling, the repeat
//! machinery of a repeat button, and a toggle switch's key and drag decisions.

use vstd::prelude::*;
use crate::keys::{Key, KeyPhase};

verus! {

/// The common visual states of a control.
#[derive(Clone, Copy, Debug, PartialEq, Eq, Structural)]
pub enum CommonState {
    Normal,
    PointerOver,
    Pressed,
    Disabled,
}

/// A disabled control shows Disabled; otherwise a press wins over the pointer being over it.
pub open spec fn spec_common_state(is_enabled: bool, pressed: bool, pointer_over: bool) -> CommonState {
    if !is_enabled {
        CommonState::Disabled
    } else if pressed {
        CommonState::Pressed
    } else if pointer_over {
        CommonState::PointerOver
    } else {
        CommonState::Normal
    }
}

/// The common visual state for a control's enabled, pressed and pointer-over flags.
pub fn common_state(is_enabled: bool, pressed: bool, pointer_over: bool) -> (r: CommonState)
    ensures
        r == spec_common_state(is_enabled, pressed, pointer_over),
{
    if !is_enabled {
        CommonState::Disabled
    } else if pressed {
        CommonState::Pressed
    } else if pointer_over {
        CommonState::PointerOver
    } else {
        CommonState::Normal
    }
}

/// The checked value after a toggle: indeterminate becomes unchecked, unchecked becomes
/// checked, and checked becomes indeterminate in a three-state button and unchecked otherwise.
pub open spec fn spec_next_is_checked(is_checked: Option<bool>, is_three_state: bool) -> Option<bool> {
    match is_checked {
        None => Some(false),
        Some(true) => if is_three_state {
            None
        } else {
            Some(false)
        },
        Some(false) => Some(true),
    }
}

/// The value a toggle button asks for when it toggles.
pub fn next_is_checked(is_checked: Option<bool>, is_three_state: bool) -> (r: Option<bool>)
    ensures
        r == spec_next_is_checked(is_checked, is_three_state),
{
    match is_checked {
        None => Some(false),
        Some(true) => if is_three_state {
            None
        } else {
            Some(false)
        },
        Some(false) => Some(true),
    }
}

/// A two-state button alternates between checked and unchecked, so toggling twice restores the
/// value; a three-state button cycles through all three values, so toggling three times does.
pub proof fn lemma_toggle_cycles(is_checked: Option<bool>)
    ensures
        is_checked is Some ==> spec_next_is_checked(
            spec_next_is_checked(is_checked, false),
            false,
        ) == is_checked,
        is_checked is Some ==> spec_next_is_checked(is_checked, false) != is_checked,
        spec_next_is_checked(
            spec_next_is_checked(spec_next_is_checked(is_checked, true), true),
            true,
        ) == is_checked,
        spec_next_is_checked(is_checked, true) != is_checked,
        spec_next_is_checked(spec_next_is_checked(is_checked, true), true) != is_checked,
{
}

/// Which of a slider's tick bars show.
#[derive(Clone, Copy, Debug, PartialEq, Eq, Structural)]
pub enum TickPlacement {
    /// No tick bars; the default.
    Hidden,
    TopLeft,
    BottomRight,
    Outside,
    Inline,
}

impl TickPlacement {
    /// Whether the top (horizontal) or left (vertical) tick bar shows.
    pub fn shows_top_left(self) -> (r: bool)
        ensures
            r == (self == TickPlacement::TopLeft || self == TickPlacement::Outside),
    {
        match self {
            TickPlacement::TopLeft | TickPlacement::Outside => true,
            _ => false,
        }
    }

    /// Whether the bottom (horizontal) or right (vertical) tick bar shows.
    pub fn shows_bottom_right(self) -> (r: bool)
        ensures
            r == (self == TickPlacement::BottomRight || self == TickPlacement::Outside),
    {
        match self {
            TickPlacement::BottomRight | TickPlacement::Outside => true,
            _ => false,
        }
    }

    /// Whether the inline tick bars show.
    pub fn shows_inline(self) -> (r: bool)
        ensures
            r == (self == TickPlacement::Inline),
    {
        self == TickPlacement::Inline
    }
}

/// The visual states of a split button that is not a toggle.
#[derive(Clone, Copy, Debug, PartialEq, Eq, Structural)]
pub enum SplitButtonVisualState {
    Normal,
    Disabled,
    FlyoutOpen,
    TouchPressed,
    PrimaryPointerOver,
    PrimaryPressed,
    SecondaryPointerOver,
    SecondaryPressed,
}

/// The pointer and keyboard state a split button's visual state is derived from.
#[derive(Clone, Copy, Debug, PartialEq, Eq, Structural)]
pub struct SplitButtonInput {
    pub is_enabled: bool,
    pub flyout_open: bool,
    /// The pointer most recently seen by either button was a touch.
    pub last_pointer_touch: bool,
    pub key_down: bool,
    pub primary_pressed: bool,
    pub secondary_pressed: bool,
    pub primary_hovered: bool,
    pub secondary_hovered: bool,
}

/// Disabled wins, then an open flyout; touch or keyboard input shows one combined pressed
/// state; otherwise the primary button's press and hover come before the secondary's.
pub open spec fn spec_split_button_visual_state(s: SplitButtonInput) -> SplitButtonVisualState {
    if !s.is_enabled {
        SplitButtonVisualState::Disabled
    } else if s.flyout_open {
        SplitButtonVisualState::FlyoutOpen
    } else if s.last_pointer_touch || s.key_down {
        if s.primary_pressed || s.secondary_pressed || s.key_down {
            SplitButtonVisualState::TouchPressed
        } else {
            SplitButtonVisualState::Normal
        }
    } else if s.primary_pressed {
        SplitButtonVisualState::PrimaryPressed
    } else if s.primary_hovered {
        SplitButtonVisualState::PrimaryPointerOver
    } else if s.secondary_pressed {
        SplitButtonVisualState::SecondaryPressed
    } else if s.secondary_hovered {
        SplitButtonVisualState::SecondaryPointerOver
    } else {
        SplitButtonVisualState::Normal
    }
}

impl SplitButtonInput {
    /// The split button's visual state.
    pub fn visual_state(&self) -> (r: SplitButtonVisualState)
        ensures
            r == spec_split_button_visual_state(*self),
    {
        if !self.is_enabled {
            SplitButtonVisualState::Disabled
        } else if self.flyout_open {
            SplitButtonVisualState::FlyoutOpen
        } else if self.last_pointer_touch || self.key_down {
            if self.primary_pressed || self.secondary_pressed || self.key_down {
                SplitButtonVisualState::TouchPressed
            } else {
                SplitButtonVisualState::Normal
            }
        } else if self.primary_pressed {
            SplitButtonVisualState::PrimaryPressed
        } else if self.primary_hovered {
            SplitButtonVisualState::PrimaryPointerOver
        } else if self.secondary_pressed {
            SplitButtonVisualState::SecondaryPressed
        } else if self.secondary_hovered {
            SplitButtonVisualState::SecondaryPointerOver
        } else {
            SplitButtonVisualState::Normal
        }
    }
}

/// Space, Enter, numpad Enter and gamepad A press a button.
pub open spec fn spec_is_press_key(key: Key) -> bool {
    key == Key::Space || key == Key::Enter || key == Key::NumpadEnter || key == Key::GamepadA
}

/// Whether a key presses a button.
pub fn is_press_key(key: Key) -> (r: bool)
    ensures
        r == spec_is_press_key(key),
{
    match key {
        Key::Space | Key::Enter | Key::NumpadEnter | Key::GamepadA => true,
        _ => false,
    }
}

/// What a key event on a split button asks for.
#[derive(Clone, Copy, Debug, PartialEq, Eq, Structural)]
pub enum SplitKeyAction {
    Ignore,
    Handle,
    /// Handled; the primary button's Click is raised.
    Click,
    /// Handled; the flyout opens below the button, left edges aligned.
    OpenFlyout,
}

/// A press key going down or repeating marks the key down and is handled; a press key going up
/// clears it and clicks an enabled button; releasing F4, or Down with Alt held, opens the flyout
/// of an enabled button.
pub open spec fn spec_split_button_key(
    key_down: bool,
    key: Key,
    phase: KeyPhase,
    is_enabled: bool,
    alt: bool,
) -> (bool, SplitKeyAction) {
    let activation = spec_is_press_key(key);
    if phase != KeyPhase::Up {
        if activation {
            (true, SplitKeyAction::Handle)
        } else {
            (key_down, SplitKeyAction::Ignore)
        }
    } else if activation {
        (false, if is_enabled {
            SplitKeyAction::Click
        } else {
            SplitKeyAction::Ignore
        })
    } else if is_enabled && (key == Key::F4 || (key == Key::ArrowDown && alt)) {
        (key_down, SplitKeyAction::OpenFlyout)
    } else {
        (key_down, SplitKeyAction::Ignore)
    }
}

/// Applies a key event to a split button's key-down flag and says what it asks for.
pub fn split_button_key(key_down: &mut bool, key: Key, phase: KeyPhase, is_enabled: bool, alt: bool) -> (r:
    SplitKeyAction)
    ensures
        (*final(key_down), r) == spec_split_button_key(*old(key_down), key, phase, is_enabled, alt),
{
    let activation = is_press_key(key);
    if phase != KeyPhase::Up {
        if activation {
            *key_down = true;
            return SplitKeyAction::Handle;
        }
    } else if activation {
        *key_down = false;
        if is_enabled {
            return SplitKeyAction::Click;
        }
    } else if is_enabled && (key == Key::F4 || (key == Key::ArrowDown && alt)) {
        return SplitKeyAction::OpenFlyout;
    }
    SplitKeyAction::Ignore
}

/// What a repeat button must do with its timer after an event.
#[derive(Clone, Copy, Debug, PartialEq, Eq, Structural)]
pub enum TimerCommand {
    /// Leave the timer as it is.
    Keep,
    /// Start the timer at the initial delay.
    StartAtDelay,
    /// Cancel the running timer.
    Stop,
    /// Start the timer again at the repeat interval.
    RestartAtInterval,
}

/// What a repeat button event asks of the control.
#[derive(Clone, Copy, Debug, PartialEq, Eq, Structural)]
pub struct RepeatOutcome {
    /// Whether the event is handled.
    pub handled: bool,
    /// Whether Click is raised.
    pub click: bool,
    pub timer: TimerCommand,
}

/// The repeat machinery of a repeat button: who causes repeats, the press flags and whether the
/// timer runs.
#[derive(Clone, Copy, Debug, PartialEq, Eq, Structural)]
pub struct RepeatButtonInput {
    pub pointer_causing_repeat: bool,
    pub keyboard_causing_repeat: bool,
    /// Whether the pressing pointer is over the control.
    pub pointer_over: bool,
    pub pressed: bool,
    pub key_down: bool,
    pub gamepad_a_key_down: bool,
    pub timer_running: bool,
}

/// Repeats continue while the pointer that pressed stays over the control, or while Space is
/// held.
pub open spec fn spec_should_repeat(s: RepeatButtonInput) -> bool {
    (s.pointer_causing_repeat && s.pointer_over) || s.keyboard_causing_repeat
}

/// Starts the timer at the delay when repeats should run and it is not running; stops it when
/// they should not and it is.
pub open spec fn spec_update_repeat(s: RepeatButtonInput) -> (RepeatButtonInput, TimerCommand) {
    if spec_should_repeat(s) {
        if s.timer_running {
            (s, TimerCommand::Keep)
        } else {
            (RepeatButtonInput { timer_running: true, ..s }, TimerCommand::StartAtDelay)
        }
    } else if s.timer_running {
        (RepeatButtonInput { timer_running: false, ..s }, TimerCommand::Stop)
    } else {
        (s, TimerCommand::Keep)
    }
}

pub open spec fn spec_outcome(handled: bool, click: bool, timer: TimerCommand) -> RepeatOutcome {
    RepeatOutcome { handled, click, timer }
}

/// A primary-button press on an enabled button clicks at once, marks the button pressed under
/// the pointer and makes the pointer cause repeats; other presses do nothing.
pub open spec fn spec_repeat_pointer_pressed(
    s: RepeatButtonInput,
    is_enabled: bool,
    primary: bool,
) -> (RepeatButtonInput, RepeatOutcome) {
    if !is_enabled || !primary {
        (s, spec_outcome(false, false, TimerCommand::Keep))
    } else {
        let s1 = RepeatButtonInput {
            pointer_over: true,
            pressed: true,
            pointer_causing_repeat: true,
            ..s
        };
        let u = spec_update_repeat(s1);
        (u.0, spec_outcome(true, true, u.1))
    }
}

/// A moving pressing pointer updates whether it is over the control; re-entering restarts the
/// repeat, leaving lets the next tick stop it.
pub open spec fn spec_repeat_pointer_moved(s: RepeatButtonInput, over: bool) -> (
    RepeatButtonInput,
    RepeatOutcome,
) {
    if !s.pointer_causing_repeat {
        (s, spec_outcome(false, false, TimerCommand::Keep))
    } else {
        let s1 = RepeatButtonInput { pointer_over: over, ..s };
        if over && !s.pointer_over {
            let u = spec_update_repeat(s1);
            (u.0, spec_outcome(true, false, u.1))
        } else {
            (s1, spec_outcome(true, false, TimerCommand::Keep))
        }
    }
}

/// Releasing the pointer (or losing its capture) ends its repeats; a touch pointer is no longer
/// over the control, and the press ends unless a key still holds it.
pub open spec fn spec_repeat_pointer_released(s: RepeatButtonInput, touch: bool) -> (
    RepeatButtonInput,
    RepeatOutcome,
) {
    let s1 = RepeatButtonInput {
        pointer_causing_repeat: false,
        pointer_over: if touch {
            false
        } else {
            s.pointer_over
        },
        pressed: if !s.key_down && !s.gamepad_a_key_down {
            false
        } else {
            s.pressed
        },
        ..s
    };
    let u = spec_update_repeat(s1);
    (u.0, spec_outcome(true, false, u.1))
}

/// The key policy of an enabled repeat button. A key that does not press ends a keyboard press
/// (unless it is a release) and is not handled. A press key going down or repeating makes
/// Space cause repeats, and clicks once when neither the pointer nor another key already holds
/// the button; going up it ends its own press (and the press itself unless the pointer causes
/// repeats) and Space stops causing repeats. Press keys are always handled.
pub open spec fn spec_repeat_key(s: RepeatButtonInput, is_enabled: bool, key: Key, phase: KeyPhase) -> (
    RepeatButtonInput,
    RepeatOutcome,
) {
    let none = spec_outcome(false, false, TimerCommand::Keep);
    if !is_enabled {
        (s, none)
    } else if !spec_is_press_key(key) {
        if phase != KeyPhase::Up && (s.key_down || s.gamepad_a_key_down) {
            (
                RepeatButtonInput { key_down: false, gamepad_a_key_down: false, pressed: false, ..s },
                none,
            )
        } else {
            (s, none)
        }
    } else if phase != KeyPhase::Up {
        let u = if key == Key::Space {
            spec_update_repeat(RepeatButtonInput { keyboard_causing_repeat: true, ..s })
        } else {
            (s, TimerCommand::Keep)
        };
        let s1 = u.0;
        if !s1.pointer_causing_repeat && !s1.key_down && !s1.gamepad_a_key_down {
            (
                RepeatButtonInput {
                    gamepad_a_key_down: if key == Key::GamepadA {
                        true
                    } else {
                        s1.gamepad_a_key_down
                    },
                    key_down: if key == Key::GamepadA {
                        s1.key_down
                    } else {
                        true
                    },
                    pressed: true,
                    ..s1
                },
                spec_outcome(true, true, u.1),
            )
        } else {
            (s1, spec_outcome(true, false, u.1))
        }
    } else {
        let s1 = RepeatButtonInput {
            gamepad_a_key_down: if key == Key::GamepadA {
                false
            } else {
                s.gamepad_a_key_down
            },
            key_down: if key == Key::GamepadA {
                s.key_down
            } else {
                false
            },
            pressed: if !s.pointer_causing_repeat {
                false
            } else {
                s.pressed
            },
            keyboard_causing_repeat: if key == Key::Space {
                false
            } else {
                s.keyboard_causing_repeat
            },
            ..s
        };
        let u = spec_update_repeat(s1);
        (u.0, spec_outcome(true, false, u.1))
    }
}

/// Losing focus or changing the enabled state ends every press and every cause of repeats.
pub open spec fn spec_repeat_reset(s: RepeatButtonInput) -> (RepeatButtonInput, RepeatOutcome) {
    let s1 = RepeatButtonInput {
        keyboard_causing_repeat: false,
        pointer_causing_repeat: false,
        key_down: false,
        gamepad_a_key_down: false,
        pressed: false,
        ..s
    };
    let u = spec_update_repeat(s1);
    (u.0, spec_outcome(true, false, u.1))
}

/// A timer tick clicks and restarts the timer at the interval while the button is pressed and
/// repeats should run; otherwise the timer ends.
pub open spec fn spec_repeat_tick(s: RepeatButtonInput) -> (RepeatButtonInput, RepeatOutcome) {
    let s1 = RepeatButtonInput { timer_running: false, ..s };
    if !s1.pressed || !spec_should_repeat(s1) {
        (s1, spec_outcome(true, false, TimerCommand::Keep))
    } else {
        (
            RepeatButtonInput { timer_running: true, ..s1 },
            spec_outcome(true, true, TimerCommand::RestartAtInterval),
        )
    }
}

impl RepeatButtonInput {
    /// A button nobody presses, with no timer.
    pub fn new() -> (r: RepeatButtonInput)
        ensures
            r == (RepeatButtonInput {
                pointer_causing_repeat: false,
                keyboard_causing_repeat: false,
                pointer_over: false,
                pressed: false,
                key_down: false,
                gamepad_a_key_down: false,
                timer_running: false,
            }),
    {
        RepeatButtonInput {
            pointer_causing_repeat: false,
            keyboard_causing_repeat: false,
            pointer_over: false,
            pressed: false,
            key_down: false,
            gamepad_a_key_down: false,
            timer_running: false,
        }
    }

    /// Whether repeats should run.
    pub fn should_repeat(&self) -> (r: bool)
        ensures
            r == spec_should_repeat(*self),
    {
        (self.pointer_causing_repeat && self.pointer_over) || self.keyboard_causing_repeat
    }

    /// Starts or stops the timer to match whether repeats should run.
    pub fn update_repeat_state(&mut self) -> (r: TimerCommand)
        ensures
            (*final(self), r) == spec_update_repeat(*old(self)),
    {
        if self.should_repeat() {
            if self.timer_running {
                TimerCommand::Keep
            } else {
                self.timer_running = true;
                TimerCommand::StartAtDelay
            }
        } else if self.timer_running {
            self.timer_running = false;
            TimerCommand::Stop
        } else {
            TimerCommand::Keep
        }
    }

    /// A pointer press on the button.
    pub fn pointer_pressed(&mut self, is_enabled: bool, primary: bool) -> (r: RepeatOutcome)
        ensures
            (*final(self), r) == spec_repeat_pointer_pressed(*old(self), is_enabled, primary),
    {
        if !is_enabled || !primary {
            return RepeatOutcome { handled: false, click: false, timer: TimerCommand::Keep };
        }
        self.pointer_over = true;
        self.pressed = true;
        self.pointer_causing_repeat = true;
        let timer = self.update_repeat_state();
        RepeatOutcome { handled: true, click: true, timer }
    }

    /// A move of the pressing pointer, with whether it is now over the button.
    pub fn pointer_moved(&mut self, over: bool) -> (r: RepeatOutcome)
        ensures
            (*final(self), r) == spec_repeat_pointer_moved(*old(self), over),
    {
        if !self.pointer_causing_repeat {
            return RepeatOutcome { handled: false, click: false, timer: TimerCommand::Keep };
        }
        let was_over = self.pointer_over;
        self.pointer_over = over;
        if over && !was_over {
            let timer = self.update_repeat_state();
            RepeatOutcome { handled: true, click: false, timer }
        } else {
            RepeatOutcome { handled: true, click: false, timer: TimerCommand::Keep }
        }
    }

    /// The pressing pointer is released or its capture is lost.
    pub fn pointer_released(&mut self, touch: bool) -> (r: RepeatOutcome)
        ensures
            (*final(self), r) == spec_repeat_pointer_released(*old(self), touch),
    {
        self.pointer_causing_repeat = false;
        if touch {
            self.pointer_over = false;
        }
        if !self.key_down && !self.gamepad_a_key_down {
            self.pressed = false;
        }
        let timer = self.update_repeat_state();
        RepeatOutcome { handled: true, click: false, timer }
    }

    /// A key event on the focused button.
    pub fn key_event(&mut self, is_enabled: bool, key: Key, phase: KeyPhase) -> (r: RepeatOutcome)
        ensures
            (*final(self), r) == spec_repeat_key(*old(self), is_enabled, key, phase),
    {
        if !is_enabled {
            return RepeatOutcome { handled: false, click: false, timer: TimerCommand::Keep };
        }
        if !is_press_key(key) {
            if phase != KeyPhase::Up && (self.key_down || self.gamepad_a_key_down) {
                self.key_down = false;
                self.gamepad_a_key_down = false;
                self.pressed = false;
            }
            return RepeatOutcome { handled: false, click: false, timer: TimerCommand::Keep };
        }
        if phase != KeyPhase::Up {
            let timer = if key == Key::Space {
                self.keyboard_causing_repeat = true;
                self.update_repeat_state()
            } else {
                TimerCommand::Keep
            };
            if !self.pointer_causing_repeat && !self.key_down && !self.gamepad_a_key_down {
                if key == Key::GamepadA {
                    self.gamepad_a_key_down = true;
                } else {
                    self.key_down = true;
                }
                self.pressed = true;
                RepeatOutcome { handled: true, click: true, timer }
            } else {
                RepeatOutcome { handled: true, click: false, timer }
            }
        } else {
            if key == Key::GamepadA {
                self.gamepad_a_key_down = false;
            } else {
                self.key_down = false;
            }
            if !self.pointer_causing_repeat {
                self.pressed = false;
            }
            if key == Key::Space {
                self.keyboard_causing_repeat = false;
            }
            let timer = self.update_repeat_state();
            RepeatOutcome { handled: true, click: false, timer }
        }
    }

    /// Focus is lost or the enabled state changes.
    pub fn reset(&mut self) -> (r: RepeatOutcome)
        ensures
            (*final(self), r) == spec_repeat_reset(*old(self)),
    {
        self.keyboard_causing_repeat = false;
        self.pointer_causing_repeat = false;
        self.key_down = false;
        self.gamepad_a_key_down = false;
        self.pressed = false;
        let timer = self.update_repeat_state();
        RepeatOutcome { handled: true, click: false, timer }
    }

    /// The repeat timer fires.
    pub fn tick(&mut self) -> (r: RepeatOutcome)
        ensures
            (*final(self), r) == spec_repeat_tick(*old(self)),
    {
        self.timer_running = false;
        if !self.pressed || !self.should_repeat() {
            return RepeatOutcome { handled: true, click: false, timer: TimerCommand::Keep };
        }
        self.timer_running = true;
        RepeatOutcome { handled: true, click: true, timer: TimerCommand::RestartAtInterval }
    }
}

/// After updating, the timer runs exactly when repeats should run, and the update changes
/// nothing else.
pub proof fn lemma_update_matches_condition(s: RepeatButtonInput)
    ensures
        spec_update_repeat(s).0.timer_running == spec_should_repeat(spec_update_repeat(s).0),
        spec_update_repeat(s).0 == (RepeatButtonInput { timer_running: spec_should_repeat(s), ..s }),
{
}

/// After a reset nothing presses the button, nothing causes repeats and the timer is stopped.
pub proof fn lemma_reset_releases_everything(s: RepeatButtonInput)
    ensures
        !spec_repeat_reset(s).0.pressed,
        !spec_repeat_reset(s).0.key_down,
        !spec_repeat_reset(s).0.gamepad_a_key_down,
        !spec_should_repeat(spec_repeat_reset(s).0),
        !spec_repeat_reset(s).0.timer_running,
{
}

/// From an idle button, Enter clicks once on its press and not on its release, and never starts
/// the timer; Space clicks once on its press and starts the timer at the delay, and its release
/// stops it again.
pub proof fn lemma_keyboard_presses_from_idle(s: RepeatButtonInput)
    requires
        !s.pointer_causing_repeat,
        !s.keyboard_causing_repeat,
        !s.pressed,
        !s.key_down,
        !s.gamepad_a_key_down,
        !s.timer_running,
    ensures
        spec_repeat_key(s, true, Key::Enter, KeyPhase::Down).1 == spec_outcome(
            true,
            true,
            TimerCommand::Keep,
        ),
        spec_repeat_key(
            spec_repeat_key(s, true, Key::Enter, KeyPhase::Down).0,
            true,
            Key::Enter,
            KeyPhase::Up,
        ).1 == spec_outcome(true, false, TimerCommand::Keep),
        !spec_repeat_key(
            spec_repeat_key(s, true, Key::Enter, KeyPhase::Down).0,
            true,
            Key::Enter,
            KeyPhase::Up,
        ).0.pressed,
        spec_repeat_key(s, true, Key::Space, KeyPhase::Down).1 == spec_outcome(
            true,
            true,
            TimerCommand::StartAtDelay,
        ),
        spec_repeat_key(
            spec_repeat_key(s, true, Key::Space, KeyPhase::Down).0,
            true,
            Key::Space,
            KeyPhase::Up,
        ).1 == spec_outcome(true, false, TimerCommand::Stop),
{
}

/// A primary press on an idle enabled button clicks at once and starts the timer at the delay;
/// while the pointer stays pressed over the button each tick clicks and restarts the timer at
/// the interval.
pub proof fn lemma_pointer_press_repeats(s: RepeatButtonInput)
    requires
        !s.pointer_causing_repeat,
        !s.keyboard_causing_repeat,
        !s.timer_running,
    ensures
        spec_repeat_pointer_pressed(s, true, true).1 == spec_outcome(
            true,
            true,
            TimerCommand::StartAtDelay,
        ),
        spec_repeat_tick(spec_repeat_pointer_pressed(s, true, true).0).1 == spec_outcome(
            true,
            true,
            TimerCommand::RestartAtInterval,
        ),
        spec_repeat_tick(spec_repeat_pointer_pressed(s, true, true).0).0
            == spec_repeat_pointer_pressed(s, true, true).0,
{
}

/// The key events a toggle switch handles.
#[derive(Clone, Copy, Debug, PartialEq, Eq, Structural)]
pub struct ToggleSwitchInput {
    /// The thumb is being dragged.
    pub is_dragging: bool,
    /// The current drag moved horizontally.
    pub was_dragged: bool,
    /// The last key down was one the switch handles.
    pub handled_key_down: bool,
    /// A pointer hovers over the switch.
    pub hovered: bool,
}

/// What a key event on a toggle switch does.
#[derive(Clone, Copy, Debug, PartialEq, Eq, Structural)]
pub struct SwitchKeyOutcome {
    pub handled: bool,
    /// Whether the switch asks to flip its value.
    pub toggle: bool,
}

/// Space and gamepad A are the switch's keys. Outside a drag, a key going down or repeating
/// records whether it is one of them and handles it if so; releasing one of them toggles when
/// it is gamepad A, or when its press was handled and no drag is in progress.
pub open spec fn spec_switch_key(s: ToggleSwitchInput, is_enabled: bool, key: Key, phase: KeyPhase) -> (
    ToggleSwitchInput,
    SwitchKeyOutcome,
) {
    let gamepad = key == Key::GamepadA;
    let handles = key == Key::Space || gamepad;
    let none = SwitchKeyOutcome { handled: false, toggle: false };
    if !is_enabled {
        (s, none)
    } else if phase != KeyPhase::Up {
        if !s.is_dragging {
            (
                ToggleSwitchInput { handled_key_down: handles, ..s },
                SwitchKeyOutcome { handled: handles, toggle: false },
            )
        } else {
            (s, none)
        }
    } else if handles {
        let s1 = ToggleSwitchInput { handled_key_down: false, ..s };
        if gamepad || (s.handled_key_down && !s.is_dragging) {
            (s1, SwitchKeyOutcome { handled: true, toggle: true })
        } else {
            (s1, none)
        }
    } else {
        (s, none)
    }
}

impl ToggleSwitchInput {
    /// A switch with no drag, hover or key press.
    pub fn new() -> (r: ToggleSwitchInput)
        ensures
            r == (ToggleSwitchInput {
                is_dragging: false,
                was_dragged: false,
                handled_key_down: false,
                hovered: false,
            }),
    {
        ToggleSwitchInput {
            is_dragging: false,
            was_dragged: false,
            handled_key_down: false,
            hovered: false,
        }
    }

    /// Applies a key event.
    pub fn key_event(&mut self, is_enabled: bool, key: Key, phase: KeyPhase) -> (r: SwitchKeyOutcome)
        ensures
            (*final(self), r) == spec_switch_key(*old(self), is_enabled, key, phase),
    {
        if !is_enabled {
            return SwitchKeyOutcome { handled: false, toggle: false };
        }
        let gamepad = key == Key::GamepadA;
        let handles = key == Key::Space || gamepad;
        if phase != KeyPhase::Up {
            if !self.is_dragging {
                self.handled_key_down = handles;
                return SwitchKeyOutcome { handled: handles, toggle: false };
            }
            SwitchKeyOutcome { handled: false, toggle: false }
        } else if handles {
            let handled = self.handled_key_down;
            self.handled_key_down = false;
            if gamepad || (handled && !self.is_dragging) {
                SwitchKeyOutcome { handled: true, toggle: true }
            } else {
                SwitchKeyOutcome { handled: false, toggle: false }
            }
        } else {
            SwitchKeyOutcome { handled: false, toggle: false }
        }
    }

    /// A drag of the thumb starts; it has not moved yet.
    pub fn drag_started(&mut self)
        ensures
            *final(self) == (ToggleSwitchInput { is_dragging: true, was_dragged: false, ..*old(self) }),
    {
        self.is_dragging = true;
        self.was_dragged = false;
    }

    /// The drag moves; only a horizontal change counts as moving the knob.
    pub fn drag_moved(&mut self, horizontal_change_is_zero: bool)
        ensures
            *final(self) == (if horizontal_change_is_zero {
                *old(self)
            } else {
                ToggleSwitchInput { was_dragged: true, ..*old(self) }
            }),
    {
        if !horizontal_change_is_zero {
            self.was_dragged = true;
        }
    }

    /// The drag completes. The switch toggles when the knob was moved and ended at or past the
    /// middle of its travel towards the other state: at or below half when on, at or above half
    /// when off. Returns whether it toggles.
    pub fn drag_completed(&mut self, is_on: bool, at_or_below_half: bool, at_or_above_half: bool) -> (r:
        bool)
        ensures
            r == (old(self).was_dragged && if is_on {
                at_or_below_half
            } else {
                at_or_above_half
            }),
            *final(self) == (ToggleSwitchInput { is_dragging: false, ..*old(self) }),
    {
        self.is_dragging = false;
        self.was_dragged && if is_on {
            at_or_below_half
        } else {
            at_or_above_half
        }
    }

    /// The drag is given up without completing.
    pub fn drag_cancelled(&mut self)
        ensures
            *final(self) == (ToggleSwitchInput { is_dragging: false, ..*old(self) }),
    {
        self.is_dragging = false;
    }

    /// Disabling ends a drag, hover and key press.
    pub fn disabled(&mut self)
        ensures
            *final(self) == (ToggleSwitchInput {
                is_dragging: false,
                hovered: false,
                handled_key_down: false,
                ..*old(self)
            }),
    {
        self.is_dragging = false;
        self.hovered = false;
        self.handled_key_down = false;
    }
}

/// Outside a drag, pressing and releasing Space toggles an enabled switch once; a disabled
/// switch ignores every key.
pub proof fn lemma_space_press_toggles_once(s: ToggleSwitchInput, key: Key, phase: KeyPhase)
    requires
        !s.is_dragging,
    ensures
        spec_switch_key(
            spec_switch_key(s, true, Key::Space, KeyPhase::Down).0,
            true,
            Key::Space,
            KeyPhase::Up,
        ).1 == (SwitchKeyOutcome { handled: true, toggle: true }),
        !spec_switch_key(
            spec_switch_key(s, true, Key::Space, KeyPhase::Down).0,
            true,
            Key::Space,
            KeyPhase::Up,
        ).0.handled_key_down,
        spec_switch_key(s, false, key, phase) == (s, SwitchKeyOutcome {
            handled: false,
            toggle: false,
        }),
{
}

} // verus!
