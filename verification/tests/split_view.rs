use reveal_winui::split_view::{
    settled_layout, transition_duration, transition_layout, ColumnLength, DisplayModeState,
    OVERLAY_CLOSE_DURATION_NANOS, OVERLAY_OPEN_DURATION_NANOS, PANE_CLOSE_DURATION_NANOS,
    PANE_OPEN_DURATION_NANOS, PANE_OPEN_PRE_DURATION_NANOS,
};
use DisplayModeState::{
    Closed, ClosedCompactLeft, ClosedCompactRight, OpenCompactOverlayLeft, OpenCompactOverlayRight,
    OpenInlineLeft, OpenInlineRight, OpenOverlayLeft, OpenOverlayRight,
};

const MILLIS: u64 = 1_000_000;

const STATES: [DisplayModeState; 9] = [
    Closed,
    ClosedCompactLeft,
    ClosedCompactRight,
    OpenOverlayLeft,
    OpenOverlayRight,
    OpenInlineLeft,
    OpenInlineRight,
    OpenCompactOverlayLeft,
    OpenCompactOverlayRight,
];

fn transition(from: DisplayModeState, to: DisplayModeState, elapsed: u64) -> reveal_winui::split_view::PaneLayout {
    transition_layout(from, to, elapsed, settled_layout(from))
}

#[test]
fn overlay_keeps_the_full_content_and_compact_reserves_the_compact_column() {
    for (state, right) in [(OpenOverlayLeft, false), (OpenOverlayRight, true)] {
        let v = settled_layout(state);
        assert_eq!((v.content_column, v.content_span), (0, 2));
        assert!(v.overlay_visible && v.pane_visible);
        assert_eq!(v.pane_right, right);
    }
    for state in [ClosedCompactLeft, OpenCompactOverlayLeft] {
        let v = settled_layout(state);
        assert_eq!(v.column1, ColumnLength::CompactPane);
        assert_eq!((v.content_column, v.content_span), (1, 1));
    }
    for state in [ClosedCompactRight, OpenCompactOverlayRight] {
        let v = settled_layout(state);
        assert_eq!(v.column2, ColumnLength::CompactPane);
        assert_eq!((v.content_column, v.content_span), (0, 1));
    }
}

#[test]
fn closed_hides_the_pane_and_the_dismiss_layer() {
    let v = settled_layout(Closed);
    assert!(!v.pane_visible && !v.overlay_visible);
    assert_eq!((v.content_column, v.content_span), (0, 2));
    assert_eq!((v.pane_column, v.pane_span), (0, 2));
}

#[test]
fn inline_panes_share_the_columns_with_the_content() {
    let left = settled_layout(OpenInlineLeft);
    assert_eq!((left.pane_column, left.pane_span), (0, 1));
    assert_eq!((left.content_column, left.content_span), (1, 1));
    let right = settled_layout(OpenInlineRight);
    assert_eq!((right.pane_column, right.pane_span), (1, 1));
    assert_eq!((right.content_column, right.content_span), (0, 1));
    assert_eq!(right.column2, ColumnLength::OpenPane);
    assert!(!left.overlay_visible && !right.overlay_visible);
}

#[test]
fn overlay_closing_keeps_the_dismiss_layer_and_pane_until_the_close_ends() {
    let start = transition(OpenOverlayRight, Closed, 0);
    assert!(start.pane_visible && start.overlay_visible && start.pane_right);
    let middle = transition(OpenOverlayRight, Closed, 60 * MILLIS);
    assert!(middle.pane_visible && middle.overlay_visible);
    let end = transition(OpenOverlayRight, Closed, 120 * MILLIS);
    assert!(!end.pane_visible && !end.overlay_visible);
}

#[test]
fn inline_close_keeps_the_pane_until_the_close_duration() {
    let v = transition(OpenInlineLeft, Closed, 99 * MILLIS);
    assert!(v.pane_visible);
    assert_eq!(v.pane_span, 1);
    assert_eq!((v.content_column, v.content_span), (0, 2));
    let v = transition(OpenInlineLeft, Closed, 100 * MILLIS);
    assert!(!v.pane_visible);
    assert_eq!(v.pane_span, 2);
}

#[test]
fn inline_close_follows_the_live_presentation_not_the_source_state() {
    let mut live = settled_layout(OpenInlineRight);
    live.pane_visible = false;
    let v = transition_layout(OpenInlineRight, Closed, 10 * MILLIS, live);
    assert!(!v.pane_visible);
    assert_eq!(v.pane_span, live.pane_span);
}

#[test]
fn compact_inline_durations_are_asymmetric() {
    assert_eq!(transition_duration(OpenInlineLeft, ClosedCompactLeft), Some(200 * MILLIS));
    assert_eq!(transition_duration(OpenInlineRight, ClosedCompactRight), Some(100 * MILLIS));
    assert_eq!(transition_duration(ClosedCompactRight, OpenInlineRight), Some(199_990_000));
    assert_eq!(PANE_OPEN_PRE_DURATION_NANOS, 199_990_000);
}

#[test]
fn declared_durations() {
    assert_eq!(transition_duration(Closed, OpenOverlayLeft), Some(OVERLAY_OPEN_DURATION_NANOS));
    assert_eq!(transition_duration(OpenOverlayLeft, Closed), Some(OVERLAY_CLOSE_DURATION_NANOS));
    assert_eq!(transition_duration(Closed, OpenInlineRight), Some(PANE_OPEN_DURATION_NANOS));
    assert_eq!(transition_duration(OpenInlineRight, Closed), Some(PANE_CLOSE_DURATION_NANOS));
    assert_eq!(OVERLAY_OPEN_DURATION_NANOS, 350 * MILLIS);
    assert_eq!(OVERLAY_CLOSE_DURATION_NANOS, 120 * MILLIS);
    assert_eq!(transition_duration(OpenOverlayLeft, OpenOverlayRight), None);
    assert_eq!(transition_duration(Closed, Closed), None);
}

#[test]
fn all_transitions_finish_at_the_target_and_unlisted_pairs_change_at_once() {
    for from in STATES {
        for to in STATES {
            let duration = transition_duration(from, to).unwrap_or_default();
            assert_eq!(transition(from, to, duration), settled_layout(to));
            if let Some(d) = transition_duration(from, to) {
                assert!(d > 0);
                assert_ne!(from, to);
            } else {
                assert_eq!(transition(from, to, 0), settled_layout(to));
            }
        }
    }
}

#[test]
fn declared_transitions_open_or_close_the_pane() {
    let open = |s: DisplayModeState| {
        matches!(
            s,
            OpenOverlayLeft | OpenOverlayRight | OpenInlineLeft | OpenInlineRight
                | OpenCompactOverlayLeft | OpenCompactOverlayRight
        )
    };
    for from in STATES {
        for to in STATES {
            if transition_duration(from, to).is_some() {
                assert_ne!(open(from), open(to));
            }
        }
    }
}
