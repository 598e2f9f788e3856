//! The pane display-mode states of a split view: which template columns, spans and layers each
//! settled state uses, how long each declared transition runs, and which of those discrete
//! values hold while a transition is still running.

use vstd::prelude::*;

verus! {

/// The named states of the display-mode group.
#[derive(Clone, Copy, Debug, PartialEq, Eq, Structural)]
pub enum DisplayModeState {
    Closed,
    ClosedCompactLeft,
    ClosedCompactRight,
    OpenOverlayLeft,
    OpenOverlayRight,
    OpenInlineLeft,
    OpenInlineRight,
    OpenCompactOverlayLeft,
    OpenCompactOverlayRight,
}

/// The width a template column takes: the open pane length, the compact pane length, or a star.
#[derive(Clone, Copy, Debug, PartialEq, Eq, Structural)]
pub enum ColumnLength {
    OpenPane,
    CompactPane,
    Star,
}

/// The discrete values applied to the named template parts at one instant.
#[derive(Clone, Copy, Debug, PartialEq, Eq, Structural)]
pub struct PaneLayout {
    /// Width of the first column definition.
    pub column1: ColumnLength,
    /// Width of the second column definition.
    pub column2: ColumnLength,
    /// Column of the content root.
    pub content_column: usize,
    /// Column span of the content root.
    pub content_span: usize,
    /// Column of the pane root.
    pub pane_column: usize,
    /// Column span of the pane root.
    pub pane_span: usize,
    /// Whether the pane is aligned right rather than left.
    pub pane_right: bool,
    /// Whether the pane root is visible.
    pub pane_visible: bool,
    /// Whether the light-dismiss layer is visible.
    pub overlay_visible: bool,
}

/// How long the inline pane takes to open, in nanoseconds.
pub const PANE_OPEN_DURATION_NANOS: u64 = 200_000_000;

/// How long the inline pane takes to close, in nanoseconds.
pub const PANE_CLOSE_DURATION_NANOS: u64 = 100_000_000;

/// The open duration the content track of an inline opening uses, in nanoseconds.
pub const PANE_OPEN_PRE_DURATION_NANOS: u64 = 199_990_000;

/// How long an overlay pane takes to open, in nanoseconds.
pub const OVERLAY_OPEN_DURATION_NANOS: u64 = 350_000_000;

/// How long an overlay pane takes to close, in nanoseconds.
pub const OVERLAY_CLOSE_DURATION_NANOS: u64 = 120_000_000;

/// The template defaults, before any state's setters.
pub open spec fn spec_base_layout() -> PaneLayout {
    PaneLayout {
        column1: ColumnLength::OpenPane,
        column2: ColumnLength::Star,
        content_column: 0,
        content_span: 2,
        pane_column: 0,
        pane_span: 2,
        pane_right: false,
        pane_visible: false,
        overlay_visible: false,
    }
}

/// The layout of a settled state: the template defaults with the state's setters applied.
pub open spec fn spec_settled(state: DisplayModeState) -> PaneLayout {
    let v = spec_base_layout();
    match state {
        DisplayModeState::Closed => v,
        DisplayModeState::ClosedCompactLeft => PaneLayout {
            column1: ColumnLength::CompactPane,
            content_column: 1,
            content_span: 1,
            pane_visible: true,
            ..v
        },
        DisplayModeState::ClosedCompactRight => PaneLayout {
            column1: ColumnLength::Star,
            column2: ColumnLength::CompactPane,
            content_span: 1,
            pane_visible: true,
            pane_span: 2,
            pane_right: true,
            ..v
        },
        DisplayModeState::OpenOverlayLeft => PaneLayout {
            pane_visible: true,
            overlay_visible: true,
            ..v
        },
        DisplayModeState::OpenOverlayRight => PaneLayout {
            pane_visible: true,
            pane_right: true,
            overlay_visible: true,
            ..v
        },
        DisplayModeState::OpenInlineLeft => PaneLayout {
            pane_visible: true,
            content_span: 1,
            content_column: 1,
            pane_span: 1,
            ..v
        },
        DisplayModeState::OpenInlineRight => PaneLayout {
            column1: ColumnLength::Star,
            column2: ColumnLength::OpenPane,
            content_span: 1,
            pane_visible: true,
            pane_column: 1,
            pane_span: 1,
            ..v
        },
        DisplayModeState::OpenCompactOverlayLeft => PaneLayout {
            content_span: 1,
            content_column: 1,
            column1: ColumnLength::CompactPane,
            pane_visible: true,
            overlay_visible: true,
            ..v
        },
        DisplayModeState::OpenCompactOverlayRight => PaneLayout {
            column1: ColumnLength::Star,
            column2: ColumnLength::CompactPane,
            content_span: 1,
            pane_visible: true,
            pane_right: true,
            overlay_visible: true,
            ..v
        },
    }
}

/// The discrete values of a settled display-mode state.
pub fn settled_layout(state: DisplayModeState) -> (r: PaneLayout)
    ensures
        r == spec_settled(state),
{
    let v = PaneLayout {
        column1: ColumnLength::OpenPane,
        column2: ColumnLength::Star,
        content_column: 0,
        content_span: 2,
        pane_column: 0,
        pane_span: 2,
        pane_right: false,
        pane_visible: false,
        overlay_visible: false,
    };
    match state {
        DisplayModeState::Closed => v,
        DisplayModeState::ClosedCompactLeft => PaneLayout {
            column1: ColumnLength::CompactPane,
            content_column: 1,
            content_span: 1,
            pane_visible: true,
            ..v
        },
        DisplayModeState::ClosedCompactRight => PaneLayout {
            column1: ColumnLength::Star,
            column2: ColumnLength::CompactPane,
            content_span: 1,
            pane_visible: true,
            pane_span: 2,
            pane_right: true,
            ..v
        },
        DisplayModeState::OpenOverlayLeft => PaneLayout {
            pane_visible: true,
            overlay_visible: true,
            ..v
        },
        DisplayModeState::OpenOverlayRight => PaneLayout {
            pane_visible: true,
            pane_right: true,
            overlay_visible: true,
            ..v
        },
        DisplayModeState::OpenInlineLeft => PaneLayout {
            pane_visible: true,
            content_span: 1,
            content_column: 1,
            pane_span: 1,
            ..v
        },
        DisplayModeState::OpenInlineRight => PaneLayout {
            column1: ColumnLength::Star,
            column2: ColumnLength::OpenPane,
            content_span: 1,
            pane_visible: true,
            pane_column: 1,
            pane_span: 1,
            ..v
        },
        DisplayModeState::OpenCompactOverlayLeft => PaneLayout {
            content_span: 1,
            content_column: 1,
            column1: ColumnLength::CompactPane,
            pane_visible: true,
            overlay_visible: true,
            ..v
        },
        DisplayModeState::OpenCompactOverlayRight => PaneLayout {
            column1: ColumnLength::Star,
            column2: ColumnLength::CompactPane,
            content_span: 1,
            pane_visible: true,
            pane_right: true,
            overlay_visible: true,
            ..v
        },
    }
}

/// The duration, in nanoseconds, of each explicitly declared transition; every other pair of
/// states changes immediately.
pub open spec fn spec_transition_duration(from: DisplayModeState, to: DisplayModeState) -> Option<
    u64,
> {
    match (from, to) {
        (DisplayModeState::Closed, DisplayModeState::OpenOverlayLeft) => Some(
            OVERLAY_OPEN_DURATION_NANOS,
        ),
        (DisplayModeState::Closed, DisplayModeState::OpenOverlayRight) => Some(
            OVERLAY_OPEN_DURATION_NANOS,
        ),
        (DisplayModeState::ClosedCompactLeft, DisplayModeState::OpenCompactOverlayLeft) => Some(
            OVERLAY_OPEN_DURATION_NANOS,
        ),
        (DisplayModeState::ClosedCompactRight, DisplayModeState::OpenCompactOverlayRight) => Some(
            OVERLAY_OPEN_DURATION_NANOS,
        ),
        (DisplayModeState::OpenOverlayLeft, DisplayModeState::Closed) => Some(
            OVERLAY_CLOSE_DURATION_NANOS,
        ),
        (DisplayModeState::OpenOverlayRight, DisplayModeState::Closed) => Some(
            OVERLAY_CLOSE_DURATION_NANOS,
        ),
        (DisplayModeState::OpenCompactOverlayLeft, DisplayModeState::ClosedCompactLeft) => Some(
            OVERLAY_CLOSE_DURATION_NANOS,
        ),
        (DisplayModeState::OpenCompactOverlayRight, DisplayModeState::ClosedCompactRight) => Some(
            OVERLAY_CLOSE_DURATION_NANOS,
        ),
        (DisplayModeState::OpenInlineLeft, DisplayModeState::Closed) => Some(
            PANE_CLOSE_DURATION_NANOS,
        ),
        (DisplayModeState::Closed, DisplayModeState::OpenInlineLeft) => Some(
            PANE_OPEN_DURATION_NANOS,
        ),
        (DisplayModeState::ClosedCompactLeft, DisplayModeState::OpenInlineLeft) => Some(
            PANE_OPEN_DURATION_NANOS,
        ),
        (DisplayModeState::OpenInlineLeft, DisplayModeState::ClosedCompactLeft) => Some(
            PANE_OPEN_DURATION_NANOS,
        ),
        (DisplayModeState::Closed, DisplayModeState::OpenInlineRight) => Some(
            PANE_OPEN_DURATION_NANOS,
        ),
        (DisplayModeState::OpenInlineRight, DisplayModeState::Closed) => Some(
            PANE_CLOSE_DURATION_NANOS,
        ),
        (DisplayModeState::ClosedCompactRight, DisplayModeState::OpenInlineRight) => Some(
            PANE_OPEN_PRE_DURATION_NANOS,
        ),
        (DisplayModeState::OpenInlineRight, DisplayModeState::ClosedCompactRight) => Some(
            PANE_CLOSE_DURATION_NANOS,
        ),
        _ => None,
    }
}

/// The duration of an explicitly declared transition, in nanoseconds; unlisted pairs change
/// immediately.
pub fn transition_duration(from: DisplayModeState, to: DisplayModeState) -> (r: Option<u64>)
    ensures
        r == spec_transition_duration(from, to),
{
    match (from, to) {
        (DisplayModeState::Closed, DisplayModeState::OpenOverlayLeft) => Some(
            OVERLAY_OPEN_DURATION_NANOS,
        ),
        (DisplayModeState::Closed, DisplayModeState::OpenOverlayRight) => Some(
            OVERLAY_OPEN_DURATION_NANOS,
        ),
        (DisplayModeState::ClosedCompactLeft, DisplayModeState::OpenCompactOverlayLeft) => Some(
            OVERLAY_OPEN_DURATION_NANOS,
        ),
        (DisplayModeState::ClosedCompactRight, DisplayModeState::OpenCompactOverlayRight) => Some(
            OVERLAY_OPEN_DURATION_NANOS,
        ),
        (DisplayModeState::OpenOverlayLeft, DisplayModeState::Closed) => Some(
            OVERLAY_CLOSE_DURATION_NANOS,
        ),
        (DisplayModeState::OpenOverlayRight, DisplayModeState::Closed) => Some(
            OVERLAY_CLOSE_DURATION_NANOS,
        ),
        (DisplayModeState::OpenCompactOverlayLeft, DisplayModeState::ClosedCompactLeft) => Some(
            OVERLAY_CLOSE_DURATION_NANOS,
        ),
        (DisplayModeState::OpenCompactOverlayRight, DisplayModeState::ClosedCompactRight) => Some(
            OVERLAY_CLOSE_DURATION_NANOS,
        ),
        (DisplayModeState::OpenInlineLeft, DisplayModeState::Closed) => Some(
            PANE_CLOSE_DURATION_NANOS,
        ),
        (DisplayModeState::Closed, DisplayModeState::OpenInlineLeft) => Some(
            PANE_OPEN_DURATION_NANOS,
        ),
        (DisplayModeState::ClosedCompactLeft, DisplayModeState::OpenInlineLeft) => Some(
            PANE_OPEN_DURATION_NANOS,
        ),
        (DisplayModeState::OpenInlineLeft, DisplayModeState::ClosedCompactLeft) => Some(
            PANE_OPEN_DURATION_NANOS,
        ),
        (DisplayModeState::Closed, DisplayModeState::OpenInlineRight) => Some(
            PANE_OPEN_DURATION_NANOS,
        ),
        (DisplayModeState::OpenInlineRight, DisplayModeState::Closed) => Some(
            PANE_CLOSE_DURATION_NANOS,
        ),
        (DisplayModeState::ClosedCompactRight, DisplayModeState::OpenInlineRight) => Some(
            PANE_OPEN_PRE_DURATION_NANOS,
        ),
        (DisplayModeState::OpenInlineRight, DisplayModeState::ClosedCompactRight) => Some(
            PANE_CLOSE_DURATION_NANOS,
        ),
        _ => None,
    }
}

/// Whether a transition is still running after `elapsed` nanoseconds.
pub open spec fn spec_running(from: DisplayModeState, to: DisplayModeState, elapsed: u64) -> bool {
    match spec_transition_duration(from, to) {
        Some(d) => elapsed < d,
        None => false,
    }
}

/// The discrete values while a declared transition runs: the target's settled values with the
/// storyboard's own setters, where the closing inline pane keeps its visibility and span from
/// the live presentation until the close duration has passed.
pub open spec fn spec_running_layout(
    from: DisplayModeState,
    to: DisplayModeState,
    elapsed: u64,
    previous: PaneLayout,
) -> PaneLayout {
    let v = spec_settled(to);
    let closing = elapsed < PANE_CLOSE_DURATION_NANOS;
    match (from, to) {
        (DisplayModeState::Closed, DisplayModeState::OpenOverlayLeft) => PaneLayout {
            pane_visible: true,
            overlay_visible: true,
            ..v
        },
        (DisplayModeState::Closed, DisplayModeState::OpenOverlayRight) => PaneLayout {
            pane_visible: true,
            pane_right: true,
            overlay_visible: true,
            ..v
        },
        (DisplayModeState::ClosedCompactLeft, DisplayModeState::OpenCompactOverlayLeft)
        | (DisplayModeState::OpenCompactOverlayLeft, DisplayModeState::ClosedCompactLeft) => PaneLayout {
            column1: ColumnLength::CompactPane,
            content_column: 1,
            content_span: 1,
            pane_visible: true,
            overlay_visible: true,
            ..v
        },
        (DisplayModeState::ClosedCompactRight, DisplayModeState::OpenCompactOverlayRight)
        | (DisplayModeState::OpenCompactOverlayRight, DisplayModeState::ClosedCompactRight) => PaneLayout {
            column1: ColumnLength::Star,
            column2: ColumnLength::CompactPane,
            content_span: 1,
            pane_visible: true,
            pane_right: true,
            overlay_visible: true,
            ..v
        },
        (DisplayModeState::OpenOverlayLeft, DisplayModeState::Closed) => PaneLayout {
            pane_visible: true,
            overlay_visible: true,
            ..v
        },
        (DisplayModeState::OpenOverlayRight, DisplayModeState::Closed) => PaneLayout {
            pane_visible: true,
            pane_right: true,
            overlay_visible: true,
            ..v
        },
        (DisplayModeState::OpenInlineLeft, DisplayModeState::Closed) => PaneLayout {
            pane_visible: if closing {
                previous.pane_visible
            } else {
                false
            },
            content_span: 2,
            content_column: 0,
            pane_span: if closing {
                previous.pane_span
            } else {
                2
            },
            ..v
        },
        (DisplayModeState::Closed, DisplayModeState::OpenInlineLeft)
        | (DisplayModeState::ClosedCompactLeft, DisplayModeState::OpenInlineLeft) => PaneLayout {
            pane_visible: true,
            content_span: 1,
            content_column: 1,
            pane_span: 1,
            ..v
        },
        (DisplayModeState::OpenInlineLeft, DisplayModeState::ClosedCompactLeft) => PaneLayout {
            column1: ColumnLength::CompactPane,
            content_column: 1,
            content_span: 1,
            pane_visible: true,
            ..v
        },
        (DisplayModeState::Closed, DisplayModeState::OpenInlineRight)
        | (DisplayModeState::ClosedCompactRight, DisplayModeState::OpenInlineRight) => PaneLayout {
            pane_visible: true,
            content_span: 1,
            column1: ColumnLength::Star,
            column2: ColumnLength::OpenPane,
            pane_column: 1,
            pane_span: 1,
            ..v
        },
        (DisplayModeState::OpenInlineRight, DisplayModeState::Closed) => PaneLayout {
            pane_visible: if closing {
                previous.pane_visible
            } else {
                false
            },
            column1: ColumnLength::Star,
            column2: ColumnLength::OpenPane,
            content_span: 2,
            content_column: 0,
            pane_column: 2,
            pane_span: if closing {
                previous.pane_span
            } else {
                1
            },
            ..v
        },
        (DisplayModeState::OpenInlineRight, DisplayModeState::ClosedCompactRight) => PaneLayout {
            column1: ColumnLength::Star,
            column2: ColumnLength::CompactPane,
            content_span: 1,
            pane_visible: true,
            pane_span: 2,
            pane_right: true,
            ..v
        },
        _ => v,
    }
}

/// The discrete values `elapsed` nanoseconds into a transition: the running values while a
/// declared transition lasts, and the target's settled values otherwise.
pub open spec fn spec_transition_layout(
    from: DisplayModeState,
    to: DisplayModeState,
    elapsed: u64,
    previous: PaneLayout,
) -> PaneLayout {
    if spec_running(from, to, elapsed) {
        spec_running_layout(from, to, elapsed, previous)
    } else {
        spec_settled(to)
    }
}

/// Evaluates the discrete part of a transition from the live presentation `previous`.
pub fn transition_layout(
    from: DisplayModeState,
    to: DisplayModeState,
    elapsed: u64,
    previous: PaneLayout,
) -> (r: PaneLayout)
    ensures
        r == spec_transition_layout(from, to, elapsed, previous),
{
    let v = settled_layout(to);
    let duration = match transition_duration(from, to) {
        Some(d) => d,
        None => {
            return v;
        },
    };
    if elapsed >= duration {
        return v;
    }
    let closing = elapsed < PANE_CLOSE_DURATION_NANOS;
    match (from, to) {
        (DisplayModeState::Closed, DisplayModeState::OpenOverlayLeft) => PaneLayout {
            pane_visible: true,
            overlay_visible: true,
            ..v
        },
        (DisplayModeState::Closed, DisplayModeState::OpenOverlayRight) => PaneLayout {
            pane_visible: true,
            pane_right: true,
            overlay_visible: true,
            ..v
        },
        (DisplayModeState::ClosedCompactLeft, DisplayModeState::OpenCompactOverlayLeft)
        | (DisplayModeState::OpenCompactOverlayLeft, DisplayModeState::ClosedCompactLeft) => PaneLayout {
            column1: ColumnLength::CompactPane,
            content_column: 1,
            content_span: 1,
            pane_visible: true,
            overlay_visible: true,
            ..v
        },
        (DisplayModeState::ClosedCompactRight, DisplayModeState::OpenCompactOverlayRight)
        | (DisplayModeState::OpenCompactOverlayRight, DisplayModeState::ClosedCompactRight) => PaneLayout {
            column1: ColumnLength::Star,
            column2: ColumnLength::CompactPane,
            content_span: 1,
            pane_visible: true,
            pane_right: true,
            overlay_visible: true,
            ..v
        },
        (DisplayModeState::OpenOverlayLeft, DisplayModeState::Closed) => PaneLayout {
            pane_visible: true,
            overlay_visible: true,
            ..v
        },
        (DisplayModeState::OpenOverlayRight, DisplayModeState::Closed) => PaneLayout {
            pane_visible: true,
            pane_right: true,
            overlay_visible: true,
            ..v
        },
        (DisplayModeState::OpenInlineLeft, DisplayModeState::Closed) => PaneLayout {
            pane_visible: if closing {
                previous.pane_visible
            } else {
                false
            },
            content_span: 2,
            content_column: 0,
            pane_span: if closing {
                previous.pane_span
            } else {
                2
            },
            ..v
        },
        (DisplayModeState::Closed, DisplayModeState::OpenInlineLeft)
        | (DisplayModeState::ClosedCompactLeft, DisplayModeState::OpenInlineLeft) => PaneLayout {
            pane_visible: true,
            content_span: 1,
            content_column: 1,
            pane_span: 1,
            ..v
        },
        (DisplayModeState::OpenInlineLeft, DisplayModeState::ClosedCompactLeft) => PaneLayout {
            column1: ColumnLength::CompactPane,
            content_column: 1,
            content_span: 1,
            pane_visible: true,
            ..v
        },
        (DisplayModeState::Closed, DisplayModeState::OpenInlineRight)
        | (DisplayModeState::ClosedCompactRight, DisplayModeState::OpenInlineRight) => PaneLayout {
            pane_visible: true,
            content_span: 1,
            column1: ColumnLength::Star,
            column2: ColumnLength::OpenPane,
            pane_column: 1,
            pane_span: 1,
            ..v
        },
        (DisplayModeState::OpenInlineRight, DisplayModeState::Closed) => PaneLayout {
            pane_visible: if closing {
                previous.pane_visible
            } else {
                false
            },
            column1: ColumnLength::Star,
            column2: ColumnLength::OpenPane,
            content_span: 2,
            content_column: 0,
            pane_column: 2,
            pane_span: if closing {
                previous.pane_span
            } else {
                1
            },
            ..v
        },
        (DisplayModeState::OpenInlineRight, DisplayModeState::ClosedCompactRight) => PaneLayout {
            column1: ColumnLength::Star,
            column2: ColumnLength::CompactPane,
            content_span: 1,
            pane_visible: true,
            pane_span: 2,
            pane_right: true,
            ..v
        },
        _ => v,
    }
}

/// Every transition finishes at its target: once the declared duration has passed, or at once
/// for a pair with no declared transition, the layout is the target's settled layout whatever
/// the live presentation was.
pub proof fn lemma_transitions_finish_at_target(
    from: DisplayModeState,
    to: DisplayModeState,
    elapsed: u64,
    previous: PaneLayout,
)
    requires
        spec_transition_duration(from, to) matches Some(d) ==> elapsed >= d,
    ensures
        spec_transition_layout(from, to, elapsed, previous) == spec_settled(to),
{
}

/// A state changes to itself at once, and every declared transition joins an open state with a
/// closed one, lasting the overlay durations for overlay panes and at most the inline open
/// duration for inline panes.
pub proof fn lemma_declared_transitions_change_openness(from: DisplayModeState, to: DisplayModeState)
    ensures
        spec_transition_duration(from, from) is None,
        spec_transition_duration(from, to) matches Some(d) ==> (spec_is_open(from)
            != spec_is_open(to) && 0 < d <= OVERLAY_OPEN_DURATION_NANOS),
{
}

/// Whether a display-mode state shows the full pane.
pub open spec fn spec_is_open(state: DisplayModeState) -> bool {
    match state {
        DisplayModeState::Closed
        | DisplayModeState::ClosedCompactLeft
        | DisplayModeState::ClosedCompactRight => false,
        _ => true,
    }
}

/// In every settled state the content and the pane each stay inside the two template columns,
/// and the light-dismiss layer is shown only over a visible pane.
pub proof fn lemma_settled_layout_fits_columns(state: DisplayModeState)
    ensures
        1 <= spec_settled(state).content_span,
        spec_settled(state).content_column + spec_settled(state).content_span <= 2,
        1 <= spec_settled(state).pane_span,
        spec_settled(state).pane_column + spec_settled(state).pane_span <= 2,
        spec_settled(state).overlay_visible ==> spec_settled(state).pane_visible,
        spec_is_open(state) ==> spec_settled(state).pane_visible,
{
}


/// Every display state but Closed shows the pane, in particular every compact state, whose
/// compact column holds the visible pane strip; the light-dismiss layer shows exactly in the
/// open overlay states.
pub proof fn lemma_settled_pane_visibility(state: DisplayModeState)
    ensures
        spec_settled(state).pane_visible <==> state != DisplayModeState::Closed,
        spec_settled(state).column1 == ColumnLength::CompactPane || spec_settled(state).column2
            == ColumnLength::CompactPane ==> spec_settled(state).pane_visible,
        spec_settled(state).overlay_visible <==> (state == DisplayModeState::OpenOverlayLeft || state
            == DisplayModeState::OpenOverlayRight || state == DisplayModeState::OpenCompactOverlayLeft
            || state == DisplayModeState::OpenCompactOverlayRight),
        (state == DisplayModeState::ClosedCompactLeft || state == DisplayModeState::ClosedCompactRight
            || state == DisplayModeState::OpenCompactOverlayLeft || state
            == DisplayModeState::OpenCompactOverlayRight) ==> (spec_settled(state).column1
            == ColumnLength::CompactPane || spec_settled(state).column2 == ColumnLength::CompactPane),
{
}

} // verus!
