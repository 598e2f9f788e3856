//! A tab header's chrome: the separator after it, the bottom border beside the selected tab,
//! when its close button shows, and which resource set colours it.

use vstd::prelude::*;
use crate::buttons::CommonState;

verus! {

/// How wide the headers of a strip are.
#[derive(Clone, Copy, Debug, PartialEq, Eq, Structural)]
pub enum TabViewWidthMode {
    /// Equal widths between the minimum and maximum header width.
    Equal,
    /// Each header takes the width its content asks for.
    SizeToContent,
    /// Unselected headers show their icon without their label.
    Compact,
}

/// When a closable tab shows its close button.
#[derive(Clone, Copy, Debug, PartialEq, Eq, Structural)]
pub enum TabViewCloseButtonOverlayMode {
    /// The desktop default shows it.
    Auto,
    /// Shows it on the selected tab and on a tab under the pointer.
    OnPointerOver,
    /// Shows it whenever the tab is closable.
    Always,
}

/// The bottom border a header draws.
#[derive(Clone, Copy, Debug, PartialEq, Eq, Structural)]
pub enum TabBottomBorderState {
    /// The continuous resting border.
    Normal,
    /// The arc joining the selected tab on its right.
    LeftOfSelectedTab,
    /// The arc joining the selected tab on its left.
    RightOfSelectedTab,
    /// No border, while the tab is selected or a tab is dragged.
    NoBottomBorderLine,
}

/// The separator and bottom border of one header.
#[derive(Clone, Copy, Debug, PartialEq, Eq, Structural)]
pub struct HeaderChrome {
    pub separator_visible: bool,
    pub bottom_border: TabBottomBorderState,
}

pub open spec fn is_index(o: Option<usize>, i: int) -> bool {
    match o {
        Some(k) => k == i,
        None => false,
    }
}

/// The separator after header `index` shows unless that header or the next one is selected or
/// hovered, or the header is the last one.
pub open spec fn spec_separator_visible(
    index: int,
    len: int,
    selected: Option<usize>,
    hovered: Option<usize>,
) -> bool {
    &&& !is_index(selected, index)
    &&& !is_index(selected, index + 1)
    &&& !is_index(hovered, index)
    &&& !is_index(hovered, index + 1)
    &&& index + 1 < len
}

/// The bottom border of header `index`: none while it is selected or a tab is dragged, the
/// joining arcs on the two neighbours of the selected tab, and the resting border elsewhere.
pub open spec fn spec_bottom_border(
    index: int,
    selected: Option<usize>,
    dragging: bool,
) -> TabBottomBorderState {
    if dragging || is_index(selected, index) {
        TabBottomBorderState::NoBottomBorderLine
    } else if is_index(selected, index + 1) {
        TabBottomBorderState::LeftOfSelectedTab
    } else if is_index(selected, index - 1) {
        TabBottomBorderState::RightOfSelectedTab
    } else {
        TabBottomBorderState::Normal
    }
}

fn matches_index(o: Option<usize>, i: usize) -> (r: bool)
    ensures
        r == is_index(o, i as int),
{
    match o {
        Some(k) => k == i,
        None => false,
    }
}

/// The separator and bottom border of header `index` in a strip of `len` headers, given the
/// selected and the hovered header and whether a tab is being dragged.
pub fn header_chrome(
    index: usize,
    len: usize,
    selected: Option<usize>,
    hovered: Option<usize>,
    dragging: bool,
) -> (r: HeaderChrome)
    requires
        index < len,
    ensures
        r.separator_visible == spec_separator_visible(index as int, len as int, selected, hovered),
        r.bottom_border == spec_bottom_border(index as int, selected, dragging),
{
    let next = index + 1;
    let separator_visible = !matches_index(selected, index) && !matches_index(selected, next)
        && !matches_index(hovered, index) && !matches_index(hovered, next) && next < len;
    let bottom_border = if dragging || matches_index(selected, index) {
        TabBottomBorderState::NoBottomBorderLine
    } else if matches_index(selected, next) {
        TabBottomBorderState::LeftOfSelectedTab
    } else if index > 0 && matches_index(selected, index - 1) {
        TabBottomBorderState::RightOfSelectedTab
    } else {
        TabBottomBorderState::Normal
    };
    HeaderChrome { separator_visible, bottom_border }
}

/// A closable tab shows its close button, except that on-pointer-over mode shows it only on the
/// selected tab and on a tab under the pointer or pressed.
pub open spec fn spec_close_visible(
    is_closable: bool,
    mode: TabViewCloseButtonOverlayMode,
    selected: bool,
    state: CommonState,
) -> bool {
    is_closable && (mode != TabViewCloseButtonOverlayMode::OnPointerOver || selected
        || state == CommonState::PointerOver || state == CommonState::Pressed)
}

/// Whether a header shows its close button.
pub fn close_visible(
    is_closable: bool,
    mode: TabViewCloseButtonOverlayMode,
    selected: bool,
    state: CommonState,
) -> (r: bool)
    ensures
        r == spec_close_visible(is_closable, mode, selected, state),
{
    let over = match mode {
        TabViewCloseButtonOverlayMode::OnPointerOver => false,
        _ => true,
    };
    let active = match state {
        CommonState::PointerOver | CommonState::Pressed => true,
        _ => false,
    };
    is_closable && (over || selected || active)
}

/// The resource set a header is coloured from.
#[derive(Clone, Copy, Debug, PartialEq, Eq, Structural)]
pub enum HeaderColors {
    Disabled,
    Selected,
    PointerOver,
    Pressed,
    Rest,
}

/// A disabled header takes the disabled set and a selected one the selected set; otherwise the
/// pointer-over and pressed states pick theirs and every other state rests.
pub open spec fn spec_header_colors(is_enabled: bool, selected: bool, state: CommonState) -> HeaderColors {
    if !is_enabled {
        HeaderColors::Disabled
    } else if selected {
        HeaderColors::Selected
    } else {
        match state {
            CommonState::PointerOver => HeaderColors::PointerOver,
            CommonState::Pressed => HeaderColors::Pressed,
            _ => HeaderColors::Rest,
        }
    }
}

/// The resource set of a header.
pub fn header_colors(is_enabled: bool, selected: bool, state: CommonState) -> (r: HeaderColors)
    ensures
        r == spec_header_colors(is_enabled, selected, state),
{
    if !is_enabled {
        HeaderColors::Disabled
    } else if selected {
        HeaderColors::Selected
    } else {
        match state {
            CommonState::PointerOver => HeaderColors::PointerOver,
            CommonState::Pressed => HeaderColors::Pressed,
            _ => HeaderColors::Rest,
        }
    }
}

/// A header shows its label unless the strip is compact and the header is not selected.
pub fn shows_label(mode: TabViewWidthMode, selected: bool) -> (r: bool)
    ensures
        r == (mode != TabViewWidthMode::Compact || selected),
{
    match mode {
        TabViewWidthMode::Compact => selected,
        _ => true,
    }
}

/// Around a selected tab and with no drag under way, exactly its left neighbour draws the left
/// arc and exactly its right neighbour the right arc; no separator touches the selected tab, and
/// the last header never has one.
pub proof fn lemma_border_arcs_flank_selection(len: int, s: usize, hovered: Option<usize>)
    requires
        s < len,
    ensures
        forall|i: int|
            0 <= i < len ==> (spec_bottom_border(i, Some(s), false)
                == TabBottomBorderState::LeftOfSelectedTab <==> i == s - 1),
        forall|i: int|
            0 <= i < len ==> (spec_bottom_border(i, Some(s), false)
                == TabBottomBorderState::RightOfSelectedTab <==> i == s + 1),
        forall|i: int|
            0 <= i < len && (i == s || i == s - 1) ==> !spec_separator_visible(
                i,
                len,
                Some(s),
                hovered,
            ),
        !spec_separator_visible(len - 1, len, Some(s), hovered),
{
}

/// While a tab is dragged no header draws a bottom border.
pub proof fn lemma_drag_hides_bottom_borders(i: int, selected: Option<usize>)
    ensures
        spec_bottom_border(i, selected, true) == TabBottomBorderState::NoBottomBorderLine,
{
}

} // verus!
