use reveal_winui::status::{
    display_kind, info_bar_layout, is_valid_badge_value, severity_glyph, InfoBadgeDisplayKind,
    InfoBarAction, InfoBarCloseReason, InfoBarIcon, InfoBarLayout, InfoBarNotice, InfoBarSeverity,
    InfoBarState, SeverityGlyph, INFO_BADGE_NO_VALUE,
};

#[test]
fn badge_values() {
    assert!(is_valid_badge_value(INFO_BADGE_NO_VALUE));
    assert!(is_valid_badge_value(0));
    assert!(is_valid_badge_value(99));
    assert!(!is_valid_badge_value(-2));
    assert_eq!(INFO_BADGE_NO_VALUE, -1);
}

#[test]
fn the_value_wins_over_the_icon() {
    assert_eq!(display_kind(0, Some(true)), InfoBadgeDisplayKind::Value);
    assert_eq!(display_kind(5, None), InfoBadgeDisplayKind::Value);
    assert_eq!(display_kind(-1, Some(true)), InfoBadgeDisplayKind::FontIcon);
    assert_eq!(display_kind(-1, Some(false)), InfoBadgeDisplayKind::Icon);
    assert_eq!(display_kind(-1, None), InfoBadgeDisplayKind::Dot);
}

#[test]
fn close_button_close_runs_to_closed() {
    let mut bar = InfoBarState::new(true);
    assert!(bar.visible);
    assert!(bar.close_button_clicked(true));
    assert_eq!(bar.close_button_answered(false), InfoBarAction::RequestOpen(false));
    assert!(!bar.close_button_clicked(true));
    let notice = bar.open_changed(true, false).unwrap();
    assert_eq!(
        notice,
        InfoBarNotice { epoch: 1, open: false, pending: Some(InfoBarCloseReason::CloseButton) }
    );
    assert!(bar.visible);
    assert_eq!(bar.deliver(notice), InfoBarAction::RaiseClosed(InfoBarCloseReason::CloseButton));
    assert!(!bar.visible);
    assert_eq!(bar.pending_close, None);
}

#[test]
fn a_canceled_close_button_close_reopens() {
    let mut bar = InfoBarState::new(true);
    assert_eq!(bar.close_button_answered(true), InfoBarAction::RaiseOpened);
    assert_eq!(bar, InfoBarState::new(true));
    bar.close_button_answered(false);
    bar.close_request_settled(true);
    assert_eq!(bar.pending_close, None);
    assert!(!bar.close_button_clicked(false));
}

#[test]
fn programmatic_close_asks_the_handlers_first() {
    let mut bar = InfoBarState::new(true);
    let notice = bar.open_changed(true, false).unwrap();
    assert_eq!(bar.deliver(notice), InfoBarAction::RaiseClosing(InfoBarCloseReason::Programmatic));
    assert!(bar.visible);
    assert_eq!(bar.closing_answered(true), InfoBarAction::RequestOpen(true));
    assert!(bar.visible);
    assert_eq!(bar.closing_answered(false), InfoBarAction::RaiseClosed(InfoBarCloseReason::Programmatic));
    assert!(!bar.visible);
}

#[test]
fn opening_shows_at_once_and_stale_notices_do_nothing() {
    let mut bar = InfoBarState::new(false);
    assert_eq!(bar.open_changed(false, false), None);
    let open = bar.open_changed(false, true).unwrap();
    assert!(bar.visible);
    let close = bar.open_changed(true, false).unwrap();
    assert_eq!(bar.deliver(open), InfoBarAction::Nothing);
    assert_eq!(close.epoch, 2);
    assert_eq!(bar.deliver(close), InfoBarAction::RaiseClosing(InfoBarCloseReason::Programmatic));
    let reopen = bar.open_changed(false, true).unwrap();
    assert_eq!(bar.deliver(reopen), InfoBarAction::RaiseOpened);
}

#[test]
fn severity_glyphs() {
    assert_eq!(InfoBarSeverity::default(), InfoBarSeverity::Informational);
    assert_eq!(severity_glyph(InfoBarSeverity::Informational), SeverityGlyph::Info);
    assert_eq!(severity_glyph(InfoBarSeverity::Success), SeverityGlyph::CheckmarkCircle);
    assert_eq!(severity_glyph(InfoBarSeverity::Warning), SeverityGlyph::ErrorCircle);
    assert_eq!(severity_glyph(InfoBarSeverity::Error), SeverityGlyph::DismissCircle);
}

#[test]
fn info_bar_layouts() {
    assert_eq!(
        info_bar_layout(InfoBarSeverity::Warning, true, false, false, true, true),
        InfoBarLayout {
            icon: InfoBarIcon::Severity(SeverityGlyph::ErrorCircle),
            content_row: Some(1),
            close_button: true
        }
    );
    assert_eq!(
        info_bar_layout(InfoBarSeverity::Error, true, true, true, true, false),
        InfoBarLayout { icon: InfoBarIcon::Custom, content_row: Some(0), close_button: false }
    );
    assert_eq!(
        info_bar_layout(InfoBarSeverity::Success, false, true, false, false, true),
        InfoBarLayout { icon: InfoBarIcon::Hidden, content_row: None, close_button: true }
    );
}
