//! Navigation view chrome and items: which pane buttons and title hosts show for a pane mode,
//! display mode and open state; how an item presenter lays out its icon, content and chevron
//! for its position; and the primary/overflow partition of top navigation items.

use vstd::prelude::*;
use crate::buttons::CommonState;
use crate::tab_strip::{index_of, spec_ids, spec_index_of, spec_opt_usize};

verus! {

/// What the pane chrome is resolved from.
#[derive(Clone, Copy, Debug, PartialEq, Eq, Structural)]
pub struct PaneChromeInput {
    /// The pane display mode is Top.
    pub pane_mode_top: bool,
    /// The pane display mode is LeftMinimal.
    pub pane_mode_left_minimal: bool,
    /// The pane display mode is Auto.
    pub pane_mode_auto: bool,
    /// The effective display mode is Minimal.
    pub display_minimal: bool,
    /// The pane is open.
    pub open: bool,
    /// The back button's visibility is not Collapsed.
    pub back_button_permitted: bool,
    pub is_pane_visible: bool,
    pub is_pane_toggle_button_visible: bool,
    /// The pane title is not empty.
    pub has_pane_title: bool,
}

/// The pane chrome's visibility decisions and the size slots they reserve.
#[derive(Clone, Copy, Debug, PartialEq, Eq, Structural)]
pub struct PaneChromeFlags {
    /// The Back button is visible.
    pub show_back: bool,
    /// The Close button replaces Back in an open minimal pane.
    pub show_close: bool,
    /// The left pane toggle button is visible.
    pub show_toggle: bool,
    /// The pane title holder hosts the title independently of the toggle.
    pub show_title_holder: bool,
    /// The top pane hosts the title.
    pub show_top_title: bool,
    /// The compact list size collapses the title and the custom pane header.
    pub closed_compact: bool,
    /// The split view overlays the pane: left Minimal mode only.
    pub overlay: bool,
    /// The toggle takes the open pane length rather than the compact one.
    pub toggle_uses_open_length: bool,
    /// Room for the Back or Close button is kept beside the toggle.
    pub back_button_reserved: bool,
    /// The separate Back row inside the pane content is shown.
    pub back_row_shown: bool,
    /// The header row keeps its minimum height.
    pub header_row_shown: bool,
    /// The header's Close column is shown.
    pub header_close_shown: bool,
}

/// The pane chrome for a navigation view's modes and state.
pub open spec fn spec_pane_chrome(i: PaneChromeInput) -> PaneChromeFlags {
    let top = i.pane_mode_top;
    let overlay = !top && i.display_minimal;
    let show_back = i.back_button_permitted && !(i.display_minimal && i.open);
    let show_close = i.back_button_permitted && i.open && (i.pane_mode_left_minimal || (
    i.pane_mode_auto && i.display_minimal));
    let show_toggle = !top && i.is_pane_visible && i.is_pane_toggle_button_visible;
    let closed_compact = !i.open && !top && !i.display_minimal;
    PaneChromeFlags {
        show_back,
        show_close,
        show_toggle,
        show_title_holder: !i.is_pane_toggle_button_visible && !top && i.has_pane_title && !(
        i.pane_mode_left_minimal && !i.open),
        show_top_title: top && !i.is_pane_toggle_button_visible && i.has_pane_title,
        closed_compact,
        overlay,
        toggle_uses_open_length: !closed_compact && i.has_pane_title && !(overlay && !i.open),
        back_button_reserved: overlay && (show_back || show_close),
        back_row_shown: !overlay && show_back,
        header_row_shown: show_toggle || show_close,
        header_close_shown: overlay && show_close,
    }
}

/// Resolves which pane buttons and title hosts show, and which size slots they reserve.
pub fn resolve_pane_chrome(i: PaneChromeInput) -> (r: PaneChromeFlags)
    ensures
        r == spec_pane_chrome(i),
{
    let top = i.pane_mode_top;
    let overlay = !top && i.display_minimal;
    let show_back = i.back_button_permitted && !(i.display_minimal && i.open);
    let show_close = i.back_button_permitted && i.open && (i.pane_mode_left_minimal || (
    i.pane_mode_auto && i.display_minimal));
    let show_toggle = !top && i.is_pane_visible && i.is_pane_toggle_button_visible;
    let closed_compact = !i.open && !top && !i.display_minimal;
    PaneChromeFlags {
        show_back,
        show_close,
        show_toggle,
        show_title_holder: !i.is_pane_toggle_button_visible && !top && i.has_pane_title && !(
        i.pane_mode_left_minimal && !i.open),
        show_top_title: top && !i.is_pane_toggle_button_visible && i.has_pane_title,
        closed_compact,
        overlay,
        toggle_uses_open_length: !closed_compact && i.has_pane_title && !(overlay && !i.open),
        back_button_reserved: overlay && (show_back || show_close),
        back_row_shown: !overlay && show_back,
        header_row_shown: show_toggle || show_close,
        header_close_shown: overlay && show_close,
    }
}

/// In an open minimal pane Close replaces Back; only left Minimal display overlays the pane;
/// a top pane shows neither the toggle nor the left title holder; the compact list size only
/// applies to a closed left pane; and the title is hosted in at most one place.
pub proof fn lemma_pane_chrome_consistency(i: PaneChromeInput)
    ensures
        i.display_minimal && i.open ==> !spec_pane_chrome(i).show_back,
        i.display_minimal && i.open && i.back_button_permitted && (i.pane_mode_left_minimal
            || i.pane_mode_auto) ==> spec_pane_chrome(i).show_close,
        spec_pane_chrome(i).overlay ==> !i.pane_mode_top && i.display_minimal,
        i.pane_mode_top ==> !spec_pane_chrome(i).show_toggle && !spec_pane_chrome(
            i,
        ).show_title_holder && !spec_pane_chrome(i).overlay,
        spec_pane_chrome(i).closed_compact ==> !i.open && !i.pane_mode_top,
        !(spec_pane_chrome(i).show_title_holder && spec_pane_chrome(i).show_top_title),
        spec_pane_chrome(i).back_row_shown ==> !spec_pane_chrome(i).back_button_reserved,
{
}

/// Where an item presenter sits.
#[derive(Clone, Copy, Debug, PartialEq, Eq, Structural)]
pub enum ItemPosition {
    /// In the left pane.
    Left,
    /// In the top pane's primary strip.
    TopPrimary,
    /// In the top pane's footer, presented like a primary item.
    TopFooter,
    /// In the top pane's overflow menu.
    TopOverflow,
}

/// The width of the icon slot.
#[derive(Clone, Copy, Debug, PartialEq, Eq, Structural)]
pub enum IconSlot {
    /// A top item without content: the wide icon-only slot.
    TopIconOnly,
    /// A top item with content: the narrow slot beside it.
    TopBesideContent,
    /// An overflow item's slot.
    Overflow,
    /// A left item without an icon: only the leading gap.
    NoIcon,
    /// A left item with an icon: the compact pane length less its inner margin.
    CompactPane,
}

/// The margin of the content presenter.
#[derive(Clone, Copy, Debug, PartialEq, Eq, Structural)]
pub enum ContentMargin {
    Compact,
    Top,
    TopContentOnly,
    Overflow,
    OverflowNoIcon,
    Left,
}

/// How an item presenter lays out its parts.
#[derive(Clone, Copy, Debug, PartialEq, Eq, Structural)]
pub struct ItemLayout {
    /// Presented as a top-pane primary item.
    pub top: bool,
    /// Presented in the top pane's overflow menu.
    pub overflow: bool,
    /// A top-level left item in a closed compact pane: only the icon shows.
    pub compact: bool,
    /// The expand chevron is shown.
    pub show_chevron: bool,
    pub icon_slot: IconSlot,
    /// The icon aligns to the right of its slot.
    pub icon_align_right: bool,
    pub content_margin: ContentMargin,
    /// The icon cell is laid out.
    pub has_icon_cell: bool,
    /// The state the item colors are looked up for: a disabled item takes the normal colors.
    pub colors_state: CommonState,
    /// A disabled top or overflow item takes the top pane's disabled foreground.
    pub top_disabled_foreground: bool,
}

/// The layout of an item presenter for its position, pane state, item properties and common
/// visual state.
pub open spec fn spec_item_layout(
    position: ItemPosition,
    is_closed_compact: bool,
    is_top_level_item: bool,
    has_children: bool,
    has_content: bool,
    has_icon: bool,
    state: CommonState,
) -> ItemLayout {
    let top = position == ItemPosition::TopPrimary || position == ItemPosition::TopFooter;
    let overflow = position == ItemPosition::TopOverflow;
    let compact = is_closed_compact && !top && !overflow && is_top_level_item;
    ItemLayout {
        top,
        overflow,
        compact,
        show_chevron: has_children && !compact,
        icon_slot: if top && !has_content {
            IconSlot::TopIconOnly
        } else if top {
            IconSlot::TopBesideContent
        } else if overflow {
            IconSlot::Overflow
        } else if !has_icon {
            IconSlot::NoIcon
        } else {
            IconSlot::CompactPane
        },
        icon_align_right: (top && has_content) || overflow,
        content_margin: if compact {
            ContentMargin::Compact
        } else if top {
            if has_icon {
                ContentMargin::Top
            } else {
                ContentMargin::TopContentOnly
            }
        } else if overflow {
            if has_icon {
                ContentMargin::Overflow
            } else {
                ContentMargin::OverflowNoIcon
            }
        } else {
            ContentMargin::Left
        },
        has_icon_cell: has_icon || (!top && !overflow),
        colors_state: if state == CommonState::Disabled {
            CommonState::Normal
        } else {
            state
        },
        top_disabled_foreground: state == CommonState::Disabled && (top || overflow),
    }
}

/// Lays out an item presenter.
pub fn item_layout(
    position: ItemPosition,
    is_closed_compact: bool,
    is_top_level_item: bool,
    has_children: bool,
    has_content: bool,
    has_icon: bool,
    state: CommonState,
) -> (r: ItemLayout)
    ensures
        r == spec_item_layout(
            position,
            is_closed_compact,
            is_top_level_item,
            has_children,
            has_content,
            has_icon,
            state,
        ),
{
    let top = position == ItemPosition::TopPrimary || position == ItemPosition::TopFooter;
    let overflow = position == ItemPosition::TopOverflow;
    let compact = is_closed_compact && !top && !overflow && is_top_level_item;
    let icon_slot = if top && !has_content {
        IconSlot::TopIconOnly
    } else if top {
        IconSlot::TopBesideContent
    } else if overflow {
        IconSlot::Overflow
    } else if !has_icon {
        IconSlot::NoIcon
    } else {
        IconSlot::CompactPane
    };
    let content_margin = if compact {
        ContentMargin::Compact
    } else if top {
        if has_icon {
            ContentMargin::Top
        } else {
            ContentMargin::TopContentOnly
        }
    } else if overflow {
        if has_icon {
            ContentMargin::Overflow
        } else {
            ContentMargin::OverflowNoIcon
        }
    } else {
        ContentMargin::Left
    };
    ItemLayout {
        top,
        overflow,
        compact,
        show_chevron: has_children && !compact,
        icon_slot,
        icon_align_right: (top && has_content) || overflow,
        content_margin,
        has_icon_cell: has_icon || (!top && !overflow),
        colors_state: if state == CommonState::Disabled {
            CommonState::Normal
        } else {
            state
        },
        top_disabled_foreground: state == CommonState::Disabled && (top || overflow),
    }
}

/// Only left items can be compact, a compact item never shows its chevron, and a left item
/// always lays out its icon cell.
pub proof fn lemma_item_layout_consistency(
    position: ItemPosition,
    is_closed_compact: bool,
    is_top_level_item: bool,
    has_children: bool,
    has_content: bool,
    has_icon: bool,
    state: CommonState,
)
    ensures
        ({
            let l = spec_item_layout(
                position,
                is_closed_compact,
                is_top_level_item,
                has_children,
                has_content,
                has_icon,
                state,
            );
            &&& l.compact ==> position == ItemPosition::Left && !l.show_chevron
            &&& position == ItemPosition::Left ==> l.has_icon_cell
            &&& !(l.top && l.overflow)
            &&& l.colors_state != CommonState::Disabled
        }),
{
}

/// The indices of the items whose flag equals `primary`, in source order, among the first `n`.
pub open spec fn spec_members(flags: Seq<bool>, primary: bool, n: int) -> Seq<usize>
    decreases n,
{
    if n <= 0 {
        seq![]
    } else if flags[n - 1] == primary {
        spec_members(flags, primary, n - 1).push((n - 1) as usize)
    } else {
        spec_members(flags, primary, n - 1)
    }
}

/// The primary/overflow partition of the top navigation items, in source order.
#[derive(Debug)]
pub struct NavPartition {
    /// For each item in source order, whether it belongs to the primary strip.
    pub primary: Vec<bool>,
}

impl NavPartition {
    /// Every item in the primary strip.
    pub fn new(count: usize) -> (r: NavPartition)
        ensures
            r.primary@ == Seq::new(count as nat, |i: int| true),
    {
        let mut primary: Vec<bool> = Vec::new();
        let mut i: usize = 0;
        while i < count
            invariant
                i <= count,
                primary@ == Seq::new(i as nat, |j: int| true),
            decreases count - i,
        {
            primary.push(true);
            i += 1;
            assert(primary@ =~= Seq::new(i as nat, |j: int| true));
        }
        NavPartition { primary }
    }

    /// Source indices of the items with the given membership, in source order.
    fn members(&self, primary: bool) -> (r: Vec<usize>)
        ensures
            r@ == spec_members(self.primary@, primary, self.primary.len() as int),
    {
        let mut r: Vec<usize> = Vec::new();
        let mut i: usize = 0;
        while i < self.primary.len()
            invariant
                i <= self.primary.len(),
                r@ == spec_members(self.primary@, primary, i as int),
            decreases self.primary.len() - i,
        {
            if self.primary[i] == primary {
                r.push(i);
            }
            i += 1;
        }
        r
    }

    /// Source indices of the primary projection.
    pub fn primary_items(&self) -> (r: Vec<usize>)
        ensures
            r@ == spec_members(self.primary@, true, self.primary.len() as int),
    {
        self.members(true)
    }

    /// Source indices of the overflow projection.
    pub fn overflow_items(&self) -> (r: Vec<usize>)
        ensures
            r@ == spec_members(self.primary@, false, self.primary.len() as int),
    {
        self.members(false)
    }

    /// Returns every item to the primary strip for a fresh measurement.
    pub fn move_all_items_to_primary_list(&mut self)
        ensures
            final(self).primary@ == Seq::new(old(self).primary.len() as nat, |i: int| true),
    {
        let mut i: usize = 0;
        while i < self.primary.len()
            invariant
                i <= self.primary.len(),
                self.primary.len() == old(self).primary.len(),
                forall|j: int| 0 <= j < i ==> self.primary[j],
            decreases self.primary.len() - i,
        {
            self.primary.set(i, true);
            i += 1;
        }
        assert(self.primary@ =~= Seq::new(old(self).primary.len() as nat, |i: int| true));
    }

    /// Moves the given items into (or out of) the primary strip; every item keeps its place in
    /// source order.
    pub fn move_items(&mut self, indices: &Vec<usize>, primary: bool)
        requires
            forall|k: int| 0 <= k < indices.len() ==> indices[k] < old(self).primary.len(),
        ensures
            final(self).primary.len() == old(self).primary.len(),
            forall|i: int|
                0 <= i < old(self).primary.len() ==> final(self).primary[i] == (if indices@.contains(
                    i as usize,
                ) {
                    primary
                } else {
                    old(self).primary[i]
                }),
    {
        let mut k: usize = 0;
        while k < indices.len()
            invariant
                k <= indices.len(),
                self.primary.len() == old(self).primary.len(),
                forall|m: int| 0 <= m < indices.len() ==> indices[m] < old(self).primary.len(),
                forall|i: int|
                    0 <= i < old(self).primary.len() ==> self.primary[i] == (if indices@.subrange(
                        0,
                        k as int,
                    ).contains(i as usize) {
                        primary
                    } else {
                        old(self).primary[i]
                    }),
            decreases indices.len() - k,
        {
            let index = indices[k];
            self.primary.set(index, primary);
            k += 1;
            proof {
                assert forall|i: int| 0 <= i < old(self).primary.len() implies self.primary[i] == (
                if indices@.subrange(0, k as int).contains(i as usize) {
                    primary
                } else {
                    old(self).primary[i]
                }) by {
                    let pre = indices@.subrange(0, k - 1);
                    let cur = indices@.subrange(0, k as int);
                    assert(cur =~= pre.push(index));
                    if i == index {
                        assert(cur[k - 1] == index);
                    } else {
                        if pre.contains(i as usize) {
                            let w = choose|w: int| 0 <= w < pre.len() && pre[w] == i as usize;
                            assert(cur[w] == i as usize);
                        }
                        if cur.contains(i as usize) {
                            let w = choose|w: int| 0 <= w < cur.len() && cur[w] == i as usize;
                            assert(w < k - 1);
                            assert(pre[w] == i as usize);
                        }
                    }
                }
            }
        }
        assert(indices@.subrange(0, indices.len() as int) =~= indices@);
    }
}

/// The primary and overflow projections partition the items: each holds exactly the items of
/// its membership, strictly in source order.
pub proof fn lemma_projections_partition(flags: Seq<bool>, primary: bool, n: int)
    requires
        0 <= n <= flags.len(),
        n <= usize::MAX,
    ensures
        forall|k: int|
            #![trigger spec_members(flags, primary, n)[k]]
            0 <= k < spec_members(flags, primary, n).len() ==> spec_members(flags, primary, n)[k]
                < n && flags[spec_members(flags, primary, n)[k] as int] == primary,
        forall|j: int, k: int|
            0 <= j < k < spec_members(flags, primary, n).len() ==> spec_members(flags, primary, n)[j]
                < spec_members(flags, primary, n)[k],
        forall|i: int|
            0 <= i < n && flags[i] == primary ==> spec_members(flags, primary, n).contains(
                i as usize,
            ),
    decreases n,
{
    if n > 0 {
        lemma_projections_partition(flags, primary, n - 1);
        let prev = spec_members(flags, primary, n - 1);
        let cur = spec_members(flags, primary, n);
        assert forall|i: int| 0 <= i < n && flags[i] == primary implies cur.contains(i as usize) by {
            if i < n - 1 {
                let w = choose|w: int| 0 <= w < prev.len() && prev[w] == i as usize;
                assert(cur[w] == i as usize);
            } else {
                assert(cur[cur.len() - 1] == i as usize);
            }
        }
    }
}

/// When every primary item would be removed, one is kept: the first when `keep_first`, the
/// last otherwise.
pub fn keep_at_least_one(removed: &mut Vec<usize>, primary_count: usize, keep_first: bool)
    ensures
        (old(removed).len() > 0 && old(removed).len() == primary_count) ==> final(removed)@ == (
        if keep_first {
            old(removed)@.subrange(1, old(removed).len() as int)
        } else {
            old(removed)@.drop_last()
        }),
        !(old(removed).len() > 0 && old(removed).len() == primary_count) ==> final(removed)@ == old(
            removed,
        )@,
{
    if removed.len() > 0 && removed.len() == primary_count {
        if keep_first {
            removed.remove(0);
            assert(removed@ =~= old(removed)@.subrange(1, old(removed).len() as int));
        } else {
            removed.pop();
        }
    }
}

/// Whether a new source lists the same item identities in the same order.
pub fn same_ids(old: &Vec<String>, new: &Vec<String>) -> (r: bool)
    ensures
        r == (spec_ids(old@) == spec_ids(new@)),
{
    if old.len() != new.len() {
        proof {
            assert(spec_ids(old@).len() != spec_ids(new@).len());
        }
        return false;
    }
    let mut i: usize = 0;
    while i < old.len()
        invariant
            i <= old.len() == new.len(),
            forall|j: int| 0 <= j < i ==> old[j]@ == new[j]@,
        decreases old.len() - i,
    {
        if !(old[i] == new[i]) {
            proof {
                assert(spec_ids(old@)[i as int] != spec_ids(new@)[i as int]);
            }
            return false;
        }
        i += 1;
    }
    proof {
        assert(spec_ids(old@) =~= spec_ids(new@));
    }
    true
}

/// For each item of a new source, the old item with the same identity whose measured width it
/// keeps: the first one.
pub fn carried_items(old: &Vec<String>, new: &Vec<String>) -> (r: Vec<Option<usize>>)
    ensures
        r.len() == new.len(),
        forall|i: int|
            0 <= i < new.len() ==> r[i] == spec_opt_usize(spec_index_of(spec_ids(old@), new[i]@)),
        forall|i: int|
            #![trigger r[i]]
            0 <= i < new.len() ==> (r[i] matches Some(j) ==> j < old.len() && old[j as int]@
                == new[i]@),
{
    let mut r: Vec<Option<usize>> = Vec::new();
    let mut i: usize = 0;
    while i < new.len()
        invariant
            i <= new.len(),
            r.len() == i,
            forall|k: int|
                0 <= k < i ==> r[k] == spec_opt_usize(spec_index_of(spec_ids(old@), new[k]@)),
            forall|k: int|
                #![trigger r[k]]
                0 <= k < i ==> (r[k] matches Some(j) ==> j < old.len() && old[j as int]@
                    == new[k]@),
        decreases new.len() - i,
    {
        r.push(index_of(old, &new[i]));
        i += 1;
    }
    r
}

} // verus!
