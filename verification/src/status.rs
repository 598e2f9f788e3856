//! Status controls: which display state an info badge shows for its value and icon, and the
//! cancelable open/close protocol of an info bar between its owner and its close button.

use vstd::prelude::*;

verus! {

/// The display states of an info badge.
#[derive(Clone, Copy, Debug, PartialEq, Eq, Structural)]
pub enum InfoBadgeDisplayKind {
    /// Neither a value nor an icon: the filled shape alone.
    Dot,
    /// The number, which takes precedence over an icon.
    Value,
    /// An icon that is not a glyph, inset on all four sides.
    Icon,
    /// A glyph icon, which needs no inset above it.
    FontIcon,
}

/// The value an info badge shows when it shows no number.
pub const INFO_BADGE_NO_VALUE: i32 = -1;

/// Whether a badge value is accepted: a count, or -1 for none.
pub fn is_valid_badge_value(value: i32) -> (r: bool)
    ensures
        r == (value >= INFO_BADGE_NO_VALUE),
{
    value >= INFO_BADGE_NO_VALUE
}

/// The value wins over an icon, and a glyph icon takes the tighter margin. `icon` is `None`
/// without an icon, and otherwise whether the icon is a glyph.
pub open spec fn spec_display_kind(value: i32, icon: Option<bool>) -> InfoBadgeDisplayKind {
    if value >= 0 {
        InfoBadgeDisplayKind::Value
    } else {
        match icon {
            Some(true) => InfoBadgeDisplayKind::FontIcon,
            Some(false) => InfoBadgeDisplayKind::Icon,
            None => InfoBadgeDisplayKind::Dot,
        }
    }
}

/// The display state of a badge.
pub fn display_kind(value: i32, icon: Option<bool>) -> (r: InfoBadgeDisplayKind)
    ensures
        r == spec_display_kind(value, icon),
{
    if value >= 0 {
        InfoBadgeDisplayKind::Value
    } else {
        match icon {
            Some(true) => InfoBadgeDisplayKind::FontIcon,
            Some(false) => InfoBadgeDisplayKind::Icon,
            None => InfoBadgeDisplayKind::Dot,
        }
    }
}

/// Why an info bar closes.
#[derive(Clone, Copy, Debug, PartialEq, Eq, Structural)]
pub enum InfoBarCloseReason {
    /// The close button was clicked.
    CloseButton,
    /// The owner set the bar closed.
    Programmatic,
}

/// What an info bar asks of its owner and handlers next.
#[derive(Clone, Copy, Debug, PartialEq, Eq, Structural)]
pub enum InfoBarAction {
    /// Nothing.
    Nothing,
    /// Raise Opened.
    RaiseOpened,
    /// Ask the owner to set the bar open (true) or closed (false).
    RequestOpen(bool),
    /// Raise Closing for this reason; its answer goes to `closing_answered`.
    RaiseClosing(InfoBarCloseReason),
    /// Raise Closed for this reason.
    RaiseClosed(InfoBarCloseReason),
}

/// A change of the owner's open value, to be delivered after the rebuild.
#[derive(Clone, Copy, Debug, PartialEq, Eq, Structural)]
pub struct InfoBarNotice {
    /// Identifies the change; a later change makes this one stale.
    pub epoch: u64,
    /// The new open value.
    pub open: bool,
    /// The reason of a close the close button already started.
    pub pending: Option<InfoBarCloseReason>,
}

/// The state of an info bar between its owner's open value and what it shows.
#[derive(Clone, Copy, Debug, PartialEq, Eq, Structural)]
pub struct InfoBarState {
    /// Whether the bar is shown.
    pub visible: bool,
    /// A close the close button started and the owner has not yet applied.
    pub pending_close: Option<InfoBarCloseReason>,
    /// Counts the changes of the owner's open value.
    pub epoch: u64,
}

/// The answer to the Closing the close button raised: a canceled close keeps the bar open and
/// raises Opened again; otherwise the close is pending and the owner is asked to close.
pub open spec fn spec_close_button_answered(s: InfoBarState, canceled: bool) -> (InfoBarState, InfoBarAction) {
    if canceled {
        (s, InfoBarAction::RaiseOpened)
    } else {
        (
            InfoBarState { pending_close: Some(InfoBarCloseReason::CloseButton), ..s },
            InfoBarAction::RequestOpen(false),
        )
    }
}

/// A change of the owner's open value gets a new epoch and takes over any pending close; an
/// opening shows the bar at once. No change leaves everything as it is.
pub open spec fn spec_open_changed(s: InfoBarState, old_open: bool, new_open: bool) -> (
    InfoBarState,
    Option<InfoBarNotice>,
) {
    if old_open == new_open {
        (s, None)
    } else {
        let epoch = (s.epoch + 1) as u64;
        (
            InfoBarState { visible: s.visible || new_open, pending_close: None, epoch },
            Some(InfoBarNotice { epoch, open: new_open, pending: s.pending_close }),
        )
    }
}

/// Delivering a notice: a stale one does nothing; an opening raises Opened; a close the close
/// button started hides the bar and raises Closed at once; any other close raises Closing.
pub open spec fn spec_deliver(s: InfoBarState, notice: InfoBarNotice) -> (InfoBarState, InfoBarAction) {
    if notice.epoch != s.epoch {
        (s, InfoBarAction::Nothing)
    } else if notice.open {
        (s, InfoBarAction::RaiseOpened)
    } else {
        match notice.pending {
            Some(reason) => (InfoBarState { visible: false, ..s }, InfoBarAction::RaiseClosed(reason)),
            None => (s, InfoBarAction::RaiseClosing(InfoBarCloseReason::Programmatic)),
        }
    }
}

/// The answer to a programmatic Closing: a canceled close asks the owner to reopen; otherwise
/// the bar hides and Closed is raised.
pub open spec fn spec_closing_answered(s: InfoBarState, canceled: bool) -> (InfoBarState, InfoBarAction) {
    if canceled {
        (s, InfoBarAction::RequestOpen(true))
    } else {
        (
            InfoBarState { visible: false, ..s },
            InfoBarAction::RaiseClosed(InfoBarCloseReason::Programmatic),
        )
    }
}

impl InfoBarState {
    /// A bar shown exactly when the owner starts it open.
    pub fn new(is_open: bool) -> (r: InfoBarState)
        ensures
            r == (InfoBarState { visible: is_open, pending_close: None, epoch: 0 }),
    {
        InfoBarState { visible: is_open, pending_close: None, epoch: 0 }
    }

    /// The close button of an open bar with no close in progress raises Click and then
    /// Closing; otherwise it does nothing.
    pub fn close_button_clicked(&self, is_open: bool) -> (r: bool)
        ensures
            r == (is_open && self.pending_close is None),
    {
        is_open && self.pending_close.is_none()
    }

    /// Applies the answer to the Closing the close button raised.
    pub fn close_button_answered(&mut self, canceled: bool) -> (r: InfoBarAction)
        ensures
            (*final(self), r) == spec_close_button_answered(*old(self), canceled),
    {
        if canceled {
            InfoBarAction::RaiseOpened
        } else {
            self.pending_close = Some(InfoBarCloseReason::CloseButton);
            InfoBarAction::RequestOpen(false)
        }
    }

    /// After the frame of a close request: if the owner kept the bar open, the pending close
    /// is dropped.
    pub fn close_request_settled(&mut self, still_open: bool)
        ensures
            *final(self) == (if still_open {
                InfoBarState { pending_close: None, ..*old(self) }
            } else {
                *old(self)
            }),
    {
        if still_open {
            self.pending_close = None;
        }
    }

    /// The owner changed its open value. Returns the notice to deliver after the rebuild, or
    /// none when the value did not change.
    pub fn open_changed(&mut self, old_open: bool, new_open: bool) -> (r: Option<InfoBarNotice>)
        requires
            old(self).epoch < u64::MAX,
        ensures
            (*final(self), r) == spec_open_changed(*old(self), old_open, new_open),
    {
        if old_open == new_open {
            return None;
        }
        self.epoch = self.epoch + 1;
        let pending = self.pending_close;
        self.pending_close = None;
        if new_open {
            self.visible = true;
        }
        Some(InfoBarNotice { epoch: self.epoch, open: new_open, pending })
    }

    /// Delivers a notice after the rebuild.
    pub fn deliver(&mut self, notice: InfoBarNotice) -> (r: InfoBarAction)
        ensures
            (*final(self), r) == spec_deliver(*old(self), notice),
    {
        if notice.epoch != self.epoch {
            return InfoBarAction::Nothing;
        }
        if notice.open {
            return InfoBarAction::RaiseOpened;
        }
        match notice.pending {
            Some(reason) => {
                self.visible = false;
                InfoBarAction::RaiseClosed(reason)
            },
            None => InfoBarAction::RaiseClosing(InfoBarCloseReason::Programmatic),
        }
    }

    /// Applies the answer to a programmatic Closing.
    pub fn closing_answered(&mut self, canceled: bool) -> (r: InfoBarAction)
        ensures
            (*final(self), r) == spec_closing_answered(*old(self), canceled),
    {
        if canceled {
            InfoBarAction::RequestOpen(true)
        } else {
            self.visible = false;
            InfoBarAction::RaiseClosed(InfoBarCloseReason::Programmatic)
        }
    }
}

/// A close-button close that no handler cancels, once the owner applies it, hides the bar and
/// raises Closed for the close button, without a second Closing.
pub proof fn lemma_close_button_close_completes(s: InfoBarState)
    requires
        s.pending_close is None,
        s.epoch < u64::MAX,
    ensures
        ({
            let answered = spec_close_button_answered(s, false);
            let changed = spec_open_changed(answered.0, true, false);
            let delivered = spec_deliver(changed.0, changed.1.unwrap());
            &&& answered.1 == InfoBarAction::RequestOpen(false)
            &&& delivered.1 == InfoBarAction::RaiseClosed(InfoBarCloseReason::CloseButton)
            &&& !delivered.0.visible
            &&& delivered.0.pending_close is None
        }),
{
}

/// A programmatic close raises Closing first; if a handler cancels it the owner is asked to
/// reopen and the bar stays shown, and otherwise the bar hides with Closed for that reason.
pub proof fn lemma_programmatic_close(s: InfoBarState, canceled: bool)
    requires
        s.visible,
        s.pending_close is None,
        s.epoch < u64::MAX,
    ensures
        ({
            let changed = spec_open_changed(s, true, false);
            let delivered = spec_deliver(changed.0, changed.1.unwrap());
            let answered = spec_closing_answered(delivered.0, canceled);
            &&& delivered.1 == InfoBarAction::RaiseClosing(InfoBarCloseReason::Programmatic)
            &&& canceled ==> answered.1 == InfoBarAction::RequestOpen(true) && answered.0.visible
            &&& !canceled ==> answered.1 == InfoBarAction::RaiseClosed(
                InfoBarCloseReason::Programmatic,
            ) && !answered.0.visible
        }),
{
}

/// Only the latest change is delivered: after a second change, the first change's notice does
/// nothing. Opening shows the bar before its notice arrives.
pub proof fn lemma_stale_notices_do_nothing(s: InfoBarState, first: bool)
    requires
        s.epoch < u64::MAX - 1,
    ensures
        ({
            let one = spec_open_changed(s, !first, first);
            let two = spec_open_changed(one.0, first, !first);
            &&& spec_deliver(two.0, one.1.unwrap()) == (two.0, InfoBarAction::Nothing)
            &&& first ==> one.0.visible
        }),
{
}


/// How serious an info bar's message is.
#[derive(Clone, Copy, Debug, PartialEq, Eq, Structural)]
pub enum InfoBarSeverity {
    /// General information; the default.
    Informational,
    /// Successful completion.
    Success,
    /// A condition that needs attention.
    Warning,
    /// An operation that failed.
    Error,
}

impl Default for InfoBarSeverity {
    fn default() -> (r: InfoBarSeverity)
        ensures
            r == InfoBarSeverity::Informational,
    {
        InfoBarSeverity::Informational
    }
}

/// The glyph an info bar shows for its severity when it has no icon of its own.
#[derive(Clone, Copy, Debug, PartialEq, Eq, Structural)]
pub enum SeverityGlyph {
    Info,
    CheckmarkCircle,
    ErrorCircle,
    DismissCircle,
}

/// The severity's glyph: information, a check mark for success, an error circle for a warning
/// and a dismiss circle for an error.
pub fn severity_glyph(severity: InfoBarSeverity) -> (r: SeverityGlyph)
    ensures
        r == (match severity {
            InfoBarSeverity::Informational => SeverityGlyph::Info,
            InfoBarSeverity::Success => SeverityGlyph::CheckmarkCircle,
            InfoBarSeverity::Warning => SeverityGlyph::ErrorCircle,
            InfoBarSeverity::Error => SeverityGlyph::DismissCircle,
        }),
{
    match severity {
        InfoBarSeverity::Informational => SeverityGlyph::Info,
        InfoBarSeverity::Success => SeverityGlyph::CheckmarkCircle,
        InfoBarSeverity::Warning => SeverityGlyph::ErrorCircle,
        InfoBarSeverity::Error => SeverityGlyph::DismissCircle,
    }
}

/// What an info bar's icon cell shows.
#[derive(Clone, Copy, Debug, PartialEq, Eq, Structural)]
pub enum InfoBarIcon {
    /// No icon cell.
    Hidden,
    /// The icon the bar was given.
    Custom,
    /// The severity's glyph on a filled circle.
    Severity(SeverityGlyph),
}

/// The parts an info bar lays out.
#[derive(Clone, Copy, Debug, PartialEq, Eq, Structural)]
pub struct InfoBarLayout {
    pub icon: InfoBarIcon,
    /// The row of the custom content, if any: the first row when the banner (title, message
    /// and action button) is empty, the second otherwise.
    pub content_row: Option<u8>,
    pub close_button: bool,
}

/// Lays out an info bar from what it was given.
pub fn info_bar_layout(
    severity: InfoBarSeverity,
    is_icon_visible: bool,
    has_custom_icon: bool,
    banner_empty: bool,
    has_content: bool,
    is_closable: bool,
) -> (r: InfoBarLayout)
    ensures
        r.icon == (if !is_icon_visible {
            InfoBarIcon::Hidden
        } else if has_custom_icon {
            InfoBarIcon::Custom
        } else {
            InfoBarIcon::Severity(
                match severity {
                    InfoBarSeverity::Informational => SeverityGlyph::Info,
                    InfoBarSeverity::Success => SeverityGlyph::CheckmarkCircle,
                    InfoBarSeverity::Warning => SeverityGlyph::ErrorCircle,
                    InfoBarSeverity::Error => SeverityGlyph::DismissCircle,
                },
            )
        }),
        r.content_row == (if !has_content {
            None
        } else if banner_empty {
            Some(0u8)
        } else {
            Some(1u8)
        }),
        r.close_button == is_closable,
{
    let icon = if !is_icon_visible {
        InfoBarIcon::Hidden
    } else if has_custom_icon {
        InfoBarIcon::Custom
    } else {
        InfoBarIcon::Severity(severity_glyph(severity))
    };
    let content_row = if !has_content {
        None
    } else if banner_empty {
        Some(0u8)
    } else {
        Some(1u8)
    };
    InfoBarLayout { icon, content_row, close_button: is_closable }
}

} // verus!
