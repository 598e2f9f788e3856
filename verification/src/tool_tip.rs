//! Tooltip service policy: the show delay for each kind of input, which keys leave an open
//! tooltip visible, what pointer events do to the active tooltip, and the stack of owners under
//! the pointer.

use vstd::prelude::*;
use crate::keys::Key;
use crate::placement::PlacementMode;

verus! {

/// The input that opens a tooltip, deciding its delay.
#[derive(Clone, Copy, Debug, PartialEq, Eq, Structural)]
pub enum InputMode {
    Explicit,
    Mouse,
    Touch,
    Keyboard,
}

/// The show delay in milliseconds: touch opens after 400 ms, or at once just after another
/// tooltip closed; the mouse reopens after 400 ms just after a close; everything else waits
/// 800 ms.
pub open spec fn spec_show_delay_millis(input: InputMode, recent_close: bool) -> u64 {
    match input {
        InputMode::Touch => if recent_close {
            0
        } else {
            400
        },
        InputMode::Mouse => if recent_close {
            400
        } else {
            800
        },
        _ => 800,
    }
}

/// The delay before a tooltip opens.
pub fn show_delay_millis(input: InputMode, recent_close: bool) -> (r: u64)
    ensures
        r == spec_show_delay_millis(input, recent_close),
{
    match input {
        InputMode::Touch => if recent_close {
            0
        } else {
            400
        },
        InputMode::Mouse => if recent_close {
            400
        } else {
            800
        },
        _ => 800,
    }
}

/// A recent close never lengthens the delay.
pub proof fn lemma_recent_close_shortens_delay(input: InputMode)
    ensures
        spec_show_delay_millis(input, true) <= spec_show_delay_millis(input, false),
{
}

/// How long a recent close keeps the shorter delays, in milliseconds.
pub const RECENT_CLOSE_MILLIS: u64 = 200;

/// How long a closing tooltip fades before it is hidden, in milliseconds.
pub const CLOSE_FADE_MILLIS: u64 = 150;

/// The keys that leave an already-open tooltip visible.
pub open spec fn spec_special_key(key: Key) -> bool {
    match key {
        Key::Alt | Key::Backspace | Key::Delete | Key::ArrowDown | Key::End | Key::Home
        | Key::Insert | Key::ArrowLeft | Key::PageDown | Key::PageUp | Key::ArrowRight
        | Key::Space | Key::ArrowUp => true,
        _ => false,
    }
}

/// Whether a key leaves an already-open tooltip visible.
pub fn special_key(key: Key) -> (r: bool)
    ensures
        r == spec_special_key(key),
{
    match key {
        Key::Alt | Key::Backspace | Key::Delete | Key::ArrowDown | Key::End | Key::Home
        | Key::Insert | Key::ArrowLeft | Key::PageDown | Key::PageUp | Key::ArrowRight
        | Key::Space | Key::ArrowUp => true,
        _ => false,
    }
}

/// Whether automatic input may open a tooltip: it is enabled and its owner does not control
/// its open state.
pub fn is_automatic(is_enabled: bool, open_is_controlled: bool) -> (r: bool)
    ensures
        r == (is_enabled && !open_is_controlled),
{
    is_enabled && !open_is_controlled
}

/// The kind of a pointer event the service observes.
#[derive(Clone, Copy, Debug, PartialEq, Eq, Structural)]
pub enum PointerEventKind {
    Down,
    Up,
    Cancel,
    Removed,
    Scroll,
    Hover,
    Move,
    Other,
}

/// What a pointer event does to the tooltip it reaches.
#[derive(Clone, Copy, Debug, PartialEq, Eq, Structural)]
pub enum ToolTipPointerAction {
    /// Nothing.
    Ignore,
    /// The tooltip closes.
    Close,
    /// The pointer position is remembered for placement.
    TrackPointer,
    /// The tooltip closes unless the pointer is in the safe zone between owner and popup.
    CheckSafeZone,
    /// This owner starts its mouse delay.
    BeginMouse,
}

/// The pointer policy. For the active tooltip: a touch press of a tooltip not yet open is
/// ignored, a touch release closes it, any other press, a cancel, a removal or a scroll closes
/// it, and a hover or move is remembered before the tooltip opens and checked against the safe
/// zone after. An automatic owner that is not active begins its delay when nothing is active
/// and it is the innermost hovered owner.
pub open spec fn spec_pointer_action(
    event: PointerEventKind,
    automatic: bool,
    is_active: bool,
    any_active: bool,
    is_top_hovered: bool,
    input: InputMode,
    open: bool,
) -> ToolTipPointerAction {
    if !automatic {
        ToolTipPointerAction::Ignore
    } else if is_active {
        match event {
            PointerEventKind::Down => if input == InputMode::Touch && !open {
                ToolTipPointerAction::Ignore
            } else {
                ToolTipPointerAction::Close
            },
            PointerEventKind::Up => if input == InputMode::Touch {
                ToolTipPointerAction::Close
            } else {
                ToolTipPointerAction::Ignore
            },
            PointerEventKind::Cancel | PointerEventKind::Removed | PointerEventKind::Scroll => {
                ToolTipPointerAction::Close
            },
            PointerEventKind::Hover | PointerEventKind::Move => if open {
                ToolTipPointerAction::CheckSafeZone
            } else {
                ToolTipPointerAction::TrackPointer
            },
            PointerEventKind::Other => ToolTipPointerAction::Ignore,
        }
    } else if !any_active && (event == PointerEventKind::Hover || event == PointerEventKind::Move)
        && is_top_hovered {
        ToolTipPointerAction::BeginMouse
    } else {
        ToolTipPointerAction::Ignore
    }
}

/// Decides what a pointer event does to a tooltip owner.
pub fn pointer_action(
    event: PointerEventKind,
    automatic: bool,
    is_active: bool,
    any_active: bool,
    is_top_hovered: bool,
    input: InputMode,
    open: bool,
) -> (r: ToolTipPointerAction)
    ensures
        r == spec_pointer_action(event, automatic, is_active, any_active, is_top_hovered, input, open),
{
    if !automatic {
        return ToolTipPointerAction::Ignore;
    }
    if is_active {
        match event {
            PointerEventKind::Down => if input == InputMode::Touch && !open {
                ToolTipPointerAction::Ignore
            } else {
                ToolTipPointerAction::Close
            },
            PointerEventKind::Up => if input == InputMode::Touch {
                ToolTipPointerAction::Close
            } else {
                ToolTipPointerAction::Ignore
            },
            PointerEventKind::Cancel | PointerEventKind::Removed | PointerEventKind::Scroll => {
                ToolTipPointerAction::Close
            },
            PointerEventKind::Hover | PointerEventKind::Move => if open {
                ToolTipPointerAction::CheckSafeZone
            } else {
                ToolTipPointerAction::TrackPointer
            },
            PointerEventKind::Other => ToolTipPointerAction::Ignore,
        }
    } else if !any_active && (event == PointerEventKind::Hover || event == PointerEventKind::Move)
        && is_top_hovered {
        ToolTipPointerAction::BeginMouse
    } else {
        ToolTipPointerAction::Ignore
    }
}

/// A manually controlled tooltip ignores the pointer, and only the active tooltip ever closes.
pub proof fn lemma_only_active_tooltip_closes(
    event: PointerEventKind,
    automatic: bool,
    is_active: bool,
    any_active: bool,
    is_top_hovered: bool,
    input: InputMode,
    open: bool,
)
    ensures
        !automatic ==> spec_pointer_action(
            event,
            automatic,
            is_active,
            any_active,
            is_top_hovered,
            input,
            open,
        ) == ToolTipPointerAction::Ignore,
        spec_pointer_action(event, automatic, is_active, any_active, is_top_hovered, input, open)
            == ToolTipPointerAction::Close ==> is_active,
        spec_pointer_action(event, automatic, is_active, any_active, is_top_hovered, input, open)
            == ToolTipPointerAction::BeginMouse ==> !is_active && !any_active,
{
}

/// The hovered owners other than `owner`, in order.
pub open spec fn spec_without(hovered: Seq<usize>, owner: usize) -> Seq<usize> {
    hovered.filter(|o: usize| o != owner)
}

/// The owners under the pointer, innermost last, identified by the caller.
#[derive(Debug)]
pub struct HoverStack {
    pub hovered: Vec<usize>,
}

impl HoverStack {
    /// No owner hovered.
    pub fn new() -> (r: HoverStack)
        ensures
            r.hovered@ == Seq::<usize>::empty(),
    {
        HoverStack { hovered: Vec::new() }
    }

    /// The pointer enters an owner: it is recorded once, innermost, unless already hovered.
    pub fn enter(&mut self, owner: usize)
        ensures
            final(self).hovered@ == (if old(self).hovered@.contains(owner) {
                old(self).hovered@
            } else {
                old(self).hovered@.push(owner)
            }),
    {
        let mut i: usize = 0;
        while i < self.hovered.len()
            invariant
                i <= self.hovered.len(),
                self.hovered@ == old(self).hovered@,
                forall|j: int| 0 <= j < i ==> self.hovered[j] != owner,
            decreases self.hovered.len() - i,
        {
            if self.hovered[i] == owner {
                return ;
            }
            i += 1;
        }
        self.hovered.push(owner);
    }

    /// The pointer leaves an owner: every record of it is removed, the others keep their order.
    pub fn leave(&mut self, owner: usize)
        ensures
            final(self).hovered@ == spec_without(old(self).hovered@, owner),
    {
        let mut kept: Vec<usize> = Vec::new();
        let mut i: usize = 0;
        while i < self.hovered.len()
            invariant
                i <= self.hovered.len(),
                self.hovered@ == old(self).hovered@,
                kept@ == spec_without(old(self).hovered@.subrange(0, i as int), owner),
            decreases self.hovered.len() - i,
        {
            let o = self.hovered[i];
            proof {
                let pre = old(self).hovered@.subrange(0, i as int);
                let cur = old(self).hovered@.subrange(0, i as int + 1);
                assert(cur.drop_last() =~= pre);
                reveal_with_fuel(Seq::filter, 1);
                assert(spec_without(cur, owner) == if cur.last() != owner {
                    spec_without(pre, owner).push(cur.last())
                } else {
                    spec_without(pre, owner)
                });
            }
            if o != owner {
                kept.push(o);
            }
            i += 1;
        }
        proof {
            assert(old(self).hovered@.subrange(0, old(self).hovered.len() as int) =~= old(
                self,
            ).hovered@);
        }
        self.hovered = kept;
    }

    /// Whether an owner is the innermost hovered one.
    pub fn is_top(&self, owner: usize) -> (r: bool)
        ensures
            r == (self.hovered.len() > 0 && self.hovered@.last() == owner),
    {
        if self.hovered.len() == 0 {
            false
        } else {
            self.hovered[self.hovered.len() - 1] == owner
        }
    }
}

/// After the pointer leaves an owner it is no longer hovered; after entering an owner that was
/// not hovered it is the innermost one.
pub proof fn lemma_hover_stack_enter_leave(hovered: Seq<usize>, owner: usize)
    ensures
        !spec_without(hovered, owner).contains(owner),
        !hovered.contains(owner) ==> hovered.push(owner).last() == owner,
{
    let f = hovered.filter(|o: usize| o != owner);
    if f.contains(owner) {
        let w = choose|w: int| 0 <= w < f.len() && f[w] == owner;
        hovered.lemma_filter_pred(|o: usize| o != owner, w);
    }
}


/// Whether the input is a pointer: mouse or touch.
pub open spec fn spec_pointer_input(input: InputMode) -> bool {
    input == InputMode::Mouse || input == InputMode::Touch
}

/// The distance in logical pixels between a tooltip and its anchor when the tooltip sets no
/// offset: none at the pointer, and otherwise by input: none for an explicit request, 12 for
/// the keyboard, 20 for the mouse and 44 for touch.
pub open spec fn spec_default_offset(placement: PlacementMode, input: InputMode) -> u8 {
    if placement == PlacementMode::Mouse && spec_pointer_input(input) {
        0
    } else {
        match input {
            InputMode::Explicit => 0,
            InputMode::Keyboard => 12,
            InputMode::Mouse => 20,
            InputMode::Touch => 44,
        }
    }
}

/// The default distance between a tooltip and its anchor.
pub fn default_offset(placement: PlacementMode, input: InputMode) -> (r: u8)
    ensures
        r == spec_default_offset(placement, input),
{
    let pointer = match input {
        InputMode::Mouse | InputMode::Touch => true,
        _ => false,
    };
    if placement == PlacementMode::Mouse && pointer {
        0
    } else {
        match input {
            InputMode::Explicit => 0,
            InputMode::Keyboard => 12,
            InputMode::Mouse => 20,
            InputMode::Touch => 44,
        }
    }
}

/// The side a tooltip opens on: a right-to-left layout exchanges Left and Right, and Mouse
/// placement without pointer input opens above.
pub open spec fn spec_resolve_side(placement: PlacementMode, rtl: bool, input: InputMode) -> PlacementMode {
    let side = if rtl {
        match placement {
            PlacementMode::Left => PlacementMode::Right,
            PlacementMode::Right => PlacementMode::Left,
            _ => placement,
        }
    } else {
        placement
    };
    if side == PlacementMode::Mouse && !spec_pointer_input(input) {
        PlacementMode::Top
    } else {
        side
    }
}

/// Resolves the side a tooltip opens on.
pub fn resolve_side(placement: PlacementMode, rtl: bool, input: InputMode) -> (r: PlacementMode)
    ensures
        r == spec_resolve_side(placement, rtl, input),
{
    let side = if rtl {
        match placement {
            PlacementMode::Left => PlacementMode::Right,
            PlacementMode::Right => PlacementMode::Left,
            _ => placement,
        }
    } else {
        placement
    };
    let pointer = match input {
        InputMode::Mouse | InputMode::Touch => true,
        _ => false,
    };
    if side == PlacementMode::Mouse && !pointer {
        PlacementMode::Top
    } else {
        side
    }
}

/// A tooltip anchors at the pointer, not at its owner, when no placement rectangle is given
/// and pointer input began it.
pub fn anchors_at_pointer(has_placement_rect: bool, input: InputMode) -> (r: bool)
    ensures
        r == (!has_placement_rect && spec_pointer_input(input)),
{
    !has_placement_rect && match input {
        InputMode::Mouse | InputMode::Touch => true,
        _ => false,
    }
}

} // verus!
