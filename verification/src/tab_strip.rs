//! Tab strip policies: which tab a keyboard selection move or a collection change selects,
//! where the selection goes when the owner reorders its tabs, how a dragged tab's insertion
//! boundary becomes a destination and a live displacement of the other headers, the arrow-key
//! focus order, and what each accelerator key asks for.

use vstd::prelude::*;
use crate::keys::Key;

verus! {

/// The properties of one tab that the strip's policies read.
#[derive(Clone, Copy, Debug, PartialEq, Eq, Structural)]
pub struct TabFlags {
    pub is_enabled: bool,
    pub is_visible: bool,
    pub is_closable: bool,
}

/// A tab can be selected or focused only when it is enabled and visible.
pub open spec fn spec_available(t: TabFlags) -> bool {
    t.is_enabled && t.is_visible
}

/// The index `step` places from `start` among `count` tabs, wrapping around the ends.
pub open spec fn spec_cyclic(start: int, step: int, count: int, forward: bool) -> int {
    if forward {
        if start + step < count {
            start + step
        } else {
            start + step - count
        }
    } else {
        if step <= start {
            start - step
        } else {
            start + count - step
        }
    }
}

/// Computes `spec_cyclic` for a step of at most one full turn.
pub fn cyclic_index(start: usize, step: usize, count: usize, forward: bool) -> (r: usize)
    requires
        start < count,
        step <= count,
    ensures
        r == spec_cyclic(start as int, step as int, count as int, forward),
        r < count || step == count && forward && r == start,
        r < count,
{
    if forward {
        if step < count - start {
            start + step
        } else {
            step - (count - start)
        }
    } else {
        if step <= start {
            start - step
        } else {
            count - (step - start)
        }
    }
}

/// Whether the tab `step` places from `start` can be selected.
pub open spec fn spec_step_available(
    tabs: Seq<TabFlags>,
    start: int,
    forward: bool,
    step: int,
) -> bool {
    spec_available(tabs[spec_cyclic(start, step, tabs.len() as int, forward)])
}

/// `step` is the first step in `lo..=hi` that reaches an available tab.
pub open spec fn spec_is_first_step(
    tabs: Seq<TabFlags>,
    start: int,
    forward: bool,
    lo: int,
    hi: int,
    step: int,
) -> bool {
    &&& lo <= step <= hi
    &&& spec_step_available(tabs, start, forward, step)
    &&& forall|t: int| lo <= t < step ==> !spec_step_available(tabs, start, forward, t)
}

/// The first step in `lo..=hi` from `start` that reaches an available tab, if any does.
pub open spec fn spec_first_step(
    tabs: Seq<TabFlags>,
    start: int,
    forward: bool,
    lo: int,
    hi: int,
) -> Option<int> {
    if exists|s: int| lo <= s <= hi && spec_step_available(tabs, start, forward, s) {
        Some(choose|s: int| spec_is_first_step(tabs, start, forward, lo, hi, s))
    } else {
        None
    }
}

/// The tab the first available step lands on.
pub open spec fn spec_first_available(
    tabs: Seq<TabFlags>,
    start: int,
    forward: bool,
    lo: int,
    hi: int,
) -> Option<int> {
    match spec_first_step(tabs, start, forward, lo, hi) {
        Some(s) => Some(spec_cyclic(start, s, tabs.len() as int, forward)),
        None => None,
    }
}

/// A step that is the first to reach an available tab is the one `spec_first_step` names.
pub proof fn lemma_first_step_is_unique(
    tabs: Seq<TabFlags>,
    start: int,
    forward: bool,
    lo: int,
    hi: int,
    step: int,
)
    requires
        spec_is_first_step(tabs, start, forward, lo, hi, step),
    ensures
        spec_first_step(tabs, start, forward, lo, hi) == Some(step),
{
    assert(exists|s: int| lo <= s <= hi && spec_step_available(tabs, start, forward, s));
    let c = choose|s: int| spec_is_first_step(tabs, start, forward, lo, hi, s);
    assert(spec_is_first_step(tabs, start, forward, lo, hi, c));
    if c < step {
        assert(!spec_step_available(tabs, start, forward, c));
    } else if c > step {
        assert(!spec_step_available(tabs, start, forward, step));
    }
}

/// Scans steps `lo..=hi` from `start` and returns the first available tab.
fn scan_available(tabs: &Vec<TabFlags>, start: usize, forward: bool, lo: usize, hi: usize) -> (r:
    Option<usize>)
    requires
        start < tabs.len(),
        lo <= hi <= tabs.len(),
    ensures
        r == (match spec_first_available(tabs@, start as int, forward, lo as int, hi as int) {
            Some(i) => Some(i as usize),
            None => None::<usize>,
        }),
        r matches Some(i) ==> i < tabs.len() && spec_available(tabs[i as int]),
{
    let count = tabs.len();
    let mut step = lo;
    loop
        invariant
            start < count == tabs.len(),
            lo <= step <= hi,
            hi <= count,
            forall|t: int| lo <= t < step ==> !spec_step_available(tabs@, start as int, forward, t),
        decreases hi - step,
    {
        let index = cyclic_index(start, step, count, forward);
        if tabs[index].is_enabled && tabs[index].is_visible {
            proof {
                lemma_first_step_is_unique(
                    tabs@,
                    start as int,
                    forward,
                    lo as int,
                    hi as int,
                    step as int,
                );
            }
            return Some(index);
        }
        if step == hi {
            assert(forall|t: int| lo <= t <= hi ==> !spec_step_available(tabs@, start as int, forward, t));
            return None;
        }
        step += 1;
    }
}

/// When some step in `lo..=hi` reaches an available tab, a first such step exists.
pub proof fn lemma_first_step_exists(
    tabs: Seq<TabFlags>,
    start: int,
    forward: bool,
    lo: int,
    hi: int,
    s: int,
)
    requires
        lo <= s <= hi,
        spec_step_available(tabs, start, forward, s),
    ensures
        exists|f: int| spec_is_first_step(tabs, start, forward, lo, hi, f),
    decreases s - lo,
{
    if exists|t: int| lo <= t < s && spec_step_available(tabs, start, forward, t) {
        let t = choose|t: int| lo <= t < s && spec_step_available(tabs, start, forward, t);
        lemma_first_step_exists(tabs, start, forward, lo, hi, t);
    } else {
        assert(spec_is_first_step(tabs, start, forward, lo, hi, s));
    }
}

/// Where a keyboard selection move starts: the selected tab, or one past the end in the
/// direction of travel when nothing is selected, clamped into the collection.
pub open spec fn spec_move_start(selected: Option<usize>, forward: bool, count: int) -> int {
    let s = match selected {
        Some(i) => i as int,
        None => if forward {
            count - 1
        } else {
            0
        },
    };
    if s <= count - 1 {
        s
    } else {
        count - 1
    }
}

/// The tab a Ctrl+Tab (or Ctrl+Shift+Tab) selection move selects: the next available tab after
/// the current one in the direction of travel, wrapping around, possibly the current one itself
/// after a full turn; none when no tab is available.
pub open spec fn spec_move_selection(
    tabs: Seq<TabFlags>,
    selected: Option<usize>,
    forward: bool,
) -> Option<int> {
    if tabs.len() == 0 {
        None
    } else {
        spec_first_available(
            tabs,
            spec_move_start(selected, forward, tabs.len() as int),
            forward,
            1,
            tabs.len() as int,
        )
    }
}

/// Moves the selection with wraparound, skipping unavailable tabs.
pub fn move_selection(tabs: &Vec<TabFlags>, selected: Option<usize>, forward: bool) -> (r: Option<
    usize,
>)
    ensures
        r == (match spec_move_selection(tabs@, selected, forward) {
            Some(i) => Some(i as usize),
            None => None::<usize>,
        }),
        r matches Some(i) ==> i < tabs.len() && spec_available(tabs[i as int]),
{
    let count = tabs.len();
    if count == 0 {
        return None;
    }
    let s = match selected {
        Some(i) => i,
        None => if forward {
            count - 1
        } else {
            0
        },
    };
    let start = if s <= count - 1 {
        s
    } else {
        count - 1
    };
    scan_available(tabs, start, forward, 1, count)
}

/// A full turn of steps reaches every tab, so a selection move finds a tab whenever any tab is
/// available.
pub proof fn lemma_full_turn_reaches_every_tab(
    tabs: Seq<TabFlags>,
    start: int,
    forward: bool,
    target: int,
)
    requires
        0 <= start < tabs.len(),
        0 <= target < tabs.len(),
        spec_available(tabs[target]),
    ensures
        spec_first_available(tabs, start, forward, 1, tabs.len() as int) is Some,
{
    let count = tabs.len() as int;
    let step = if forward {
        if target > start {
            target - start
        } else {
            target - start + count
        }
    } else {
        if target < start {
            start - target
        } else {
            start - target + count
        }
    };
    assert(spec_cyclic(start, step, count, forward) == target);
    assert(spec_step_available(tabs, start, forward, step));
}

/// A selection move finds a tab exactly when some tab is available.
pub proof fn lemma_move_selection_finds_any_available(
    tabs: Seq<TabFlags>,
    selected: Option<usize>,
    forward: bool,
)
    ensures
        spec_move_selection(tabs, selected, forward) is Some <==> exists|i: int|
            0 <= i < tabs.len() && spec_available(tabs[i]),
{
    if exists|i: int| 0 <= i < tabs.len() && spec_available(tabs[i]) {
        let i = choose|i: int| 0 <= i < tabs.len() && spec_available(tabs[i]);
        lemma_full_turn_reaches_every_tab(
            tabs,
            spec_move_start(selected, forward, tabs.len() as int),
            forward,
            i,
        );
    }
    if spec_move_selection(tabs, selected, forward) is Some {
        let start = spec_move_start(selected, forward, tabs.len() as int);
        let w = choose|s: int|
            1 <= s <= tabs.len() && spec_step_available(tabs, start, forward, s);
        lemma_first_step_exists(tabs, start, forward, 1, tabs.len() as int, w);
        let s = choose|s: int|
            spec_is_first_step(tabs, start, forward, 1, tabs.len() as int, s);
        let i = spec_cyclic(start, s, tabs.len() as int, forward);
        assert(0 <= i < tabs.len() && spec_available(tabs[i]));
    }
}

/// The selection a tab activation requests: only an available tab that is not already selected.
pub fn selection_request(tabs: &Vec<TabFlags>, selected: Option<usize>, index: usize) -> (r: Option<
    usize,
>)
    ensures
        r == (if index < tabs.len() && spec_available(tabs[index as int]) && selected != Some(
            index,
        ) {
            Some(index)
        } else {
            None
        }),
{
    if index < tabs.len() && tabs[index].is_enabled && tabs[index].is_visible && match selected {
        Some(s) => s != index,
        None => true,
    } {
        Some(index)
    } else {
        None
    }
}

/// The collection the owner is asked to produce by a reorder request: the tab at `from` removed
/// and inserted at `to`, its index after the removal.
pub open spec fn spec_moved<A>(s: Seq<A>, from: int, to: int) -> Seq<A> {
    s.remove(from).insert(to, s[from])
}

/// Where the tab at `index` ends up when the tab at `from` moves to `to`.
pub open spec fn spec_reordered_index(index: int, from: int, to: int) -> int {
    if index == from {
        to
    } else if from < index && index <= to {
        index - 1
    } else if to <= index && index < from {
        index + 1
    } else {
        index
    }
}

/// The selected index a reorder request reports, preserving the selected tab.
pub fn reordered_selection(selected: Option<usize>, from: usize, to: usize) -> (r: Option<usize>)
    ensures
        r == (match selected {
            Some(i) => Some(spec_reordered_index(i as int, from as int, to as int) as usize),
            None => None::<usize>,
        }),
{
    match selected {
        Some(selected) => Some(
            if selected == from {
                to
            } else if from < selected && selected <= to {
                selected - 1
            } else if to <= selected && selected < from {
                selected + 1
            } else {
                selected
            },
        ),
        None => None,
    }
}

/// A reorder keeps every tab: after the owner moves the tab at `from` to `to`, the tab that was
/// at `index` is found at its reordered index, so the reported selection names the same tab.
pub proof fn lemma_reorder_preserves_identity<A>(s: Seq<A>, from: int, to: int, index: int)
    requires
        0 <= from < s.len(),
        0 <= to < s.len(),
        0 <= index < s.len(),
    ensures
        spec_moved(s, from, to).len() == s.len(),
        0 <= spec_reordered_index(index, from, to) < s.len(),
        spec_moved(s, from, to)[spec_reordered_index(index, from, to)] == s[index],
{
    let removed = s.remove(from);
    assert(removed.len() == s.len() - 1);
    let moved = removed.insert(to, s[from]);
    let j = spec_reordered_index(index, from, to);
    if index != from {
        let k = if index < from {
            index
        } else {
            index - 1
        };
        assert(removed[k] == s[index]);
        if k < to {
            assert(j == k);
            assert(moved[k] == removed[k]);
        } else {
            assert(j == k + 1);
            assert(moved[k + 1] == removed[k]);
        }
    }
}

/// The neighbour a keyboard reorder (Alt+Shift+arrow) moves the focused tab to, if it has one.
pub fn keyboard_reorder_target(from: usize, count: usize, forward: bool) -> (r: Option<usize>)
    requires
        from < count,
    ensures
        r == (if forward {
            if from + 1 < count {
                Some((from + 1) as usize)
            } else {
                None
            }
        } else {
            if from > 0 {
                Some((from - 1) as usize)
            } else {
                None
            }
        }),
{
    if forward {
        if from + 1 < count {
            Some(from + 1)
        } else {
            None
        }
    } else {
        if from > 0 {
            Some(from - 1)
        } else {
            None
        }
    }
}

/// The index after removal that an insertion boundary, counted before removal, becomes.
pub open spec fn spec_drop_destination(from: int, insertion: int) -> int {
    if insertion > from {
        insertion - 1
    } else {
        insertion
    }
}

/// The destination of a dropped tab of this strip: its insertion boundary, less one when the
/// boundary lies after the tab's own position.
pub fn drop_destination(from: usize, insertion: usize) -> (r: usize)
    ensures
        r == spec_drop_destination(from as int, insertion as int),
{
    if insertion > from {
        insertion - 1
    } else {
        insertion
    }
}

/// The slots the header at `index` is displaced by while the tab at `from` hovers at insertion
/// boundary `slot`, in reading order.
pub open spec fn spec_live_shift(slot: int, from: int, index: int) -> int {
    if slot > from && from < index && index < slot {
        -1
    } else if slot <= index && index < from {
        1
    } else {
        0
    }
}

/// The direction, in header widths, in which a header is offset to expose the insertion gap
/// of a tab dragged within its own strip; a right-to-left strip offsets the other way.
pub fn live_shift(slot: usize, from: usize, index: usize, rtl: bool) -> (r: i8)
    ensures
        r == (if rtl {
            -spec_live_shift(slot as int, from as int, index as int)
        } else {
            spec_live_shift(slot as int, from as int, index as int)
        }),
{
    let shift: i8 = if slot > from && from < index && index < slot {
        -1
    } else if slot <= index && index < from {
        1
    } else {
        0
    };
    if rtl {
        -shift
    } else {
        shift
    }
}

/// The live displacement previews the drop: every other header is offset by exactly the number
/// of slots it moves when the dragged tab is dropped at the same boundary.
pub proof fn lemma_live_shift_previews_drop(slot: int, from: int, index: int)
    requires
        0 <= from,
        0 <= index,
        0 <= slot,
        index != from,
    ensures
        spec_reordered_index(index, from, spec_drop_destination(from, slot)) == index
            + spec_live_shift(slot, from, index),
{
}

/// The tabs that may take focus after the tab at `index` closes, by position before the close:
/// every later tab in order, then every earlier tab nearest first.
pub open spec fn spec_close_focus_candidates(index: int, count: int) -> Seq<usize> {
    Seq::new((count - index - 1) as nat, |k: int| (index + 1 + k) as usize) + Seq::new(
        index as nat,
        |k: int| (index - 1 - k) as usize,
    )
}

/// Lists the tabs that may take focus after the tab at `index` closes.
pub fn close_focus_candidates(index: usize, count: usize) -> (r: Vec<usize>)
    requires
        index < count,
    ensures
        r@ == spec_close_focus_candidates(index as int, count as int),
{
    let mut r: Vec<usize> = Vec::new();
    let mut k: usize = index + 1;
    while k < count
        invariant
            index < count,
            index + 1 <= k <= count,
            r@ == Seq::new((k - index - 1) as nat, |j: int| (index + 1 + j) as usize),
        decreases count - k,
    {
        r.push(k);
        k += 1;
        assert(r@ =~= Seq::new((k - index - 1) as nat, |j: int| (index + 1 + j) as usize));
    }
    let ghost later = r@;
    let mut k: usize = index;
    while k > 0
        invariant
            k <= index < count,
            r@ == later + Seq::new((index - k) as nat, |j: int| (index - 1 - j) as usize),
        decreases k,
    {
        k -= 1;
        r.push(k);
        assert(r@ =~= later + Seq::new((index - k) as nat, |j: int| (index - 1 - j) as usize));
    }
    assert(r@ =~= spec_close_focus_candidates(index as int, count as int));
    r
}

/// Every other tab is a close focus candidate exactly once, and the closing tab is not one.
pub proof fn lemma_close_focus_candidates_cover_others(index: int, count: int)
    requires
        0 <= index < count <= usize::MAX,
    ensures
        spec_close_focus_candidates(index, count).len() == count - 1,
        forall|k: int|
            0 <= k < count - 1 ==> spec_close_focus_candidates(index, count)[k] != index
                && spec_close_focus_candidates(index, count)[k] < count,
        forall|j: int, k: int|
            0 <= j < k < count - 1 ==> spec_close_focus_candidates(index, count)[j]
                != spec_close_focus_candidates(index, count)[k],
{
}

/// One keyboard focus stop of the strip.
#[derive(Clone, Copy, Debug, PartialEq, Eq, Structural)]
pub enum FocusStop {
    /// The header of the tab at this index.
    Tab(usize),
    /// The close button of the tab at this index.
    Close(usize),
    /// The add-tab button.
    AddButton,
}

/// Whether the close button of the tab at `index` is a focus stop: the tab is closable and its
/// close button is shown, always or, under the pointer-over overlay mode, when the tab is
/// selected or hovered.
pub open spec fn spec_close_shown(
    tab: TabFlags,
    index: int,
    close_on_pointer_over: bool,
    selected: Option<usize>,
    hovered: Option<usize>,
) -> bool {
    tab.is_closable && (!close_on_pointer_over || selected == Some(index as usize) || hovered == Some(
        index as usize,
    ))
}

/// The focus stops of the first `n` tabs: each available tab's header, then its close button
/// when shown.
pub open spec fn spec_tab_stops(
    tabs: Seq<TabFlags>,
    n: int,
    close_on_pointer_over: bool,
    selected: Option<usize>,
    hovered: Option<usize>,
) -> Seq<FocusStop>
    decreases n,
{
    if n <= 0 {
        seq![]
    } else {
        let prev = spec_tab_stops(tabs, n - 1, close_on_pointer_over, selected, hovered);
        let i = n - 1;
        if spec_available(tabs[i]) {
            if spec_close_shown(tabs[i], i, close_on_pointer_over, selected, hovered) {
                prev + seq![FocusStop::Tab(i as usize), FocusStop::Close(i as usize)]
            } else {
                prev + seq![FocusStop::Tab(i as usize)]
            }
        } else {
            prev
        }
    }
}

/// The arrow-key focus order of the strip: the tab stops in collection order, then the add-tab
/// button when it is visible.
pub open spec fn spec_focus_order(
    tabs: Seq<TabFlags>,
    close_on_pointer_over: bool,
    selected: Option<usize>,
    hovered: Option<usize>,
    add_button_visible: bool,
) -> Seq<FocusStop> {
    let stops = spec_tab_stops(tabs, tabs.len() as int, close_on_pointer_over, selected, hovered);
    if add_button_visible {
        stops.push(FocusStop::AddButton)
    } else {
        stops
    }
}

/// Builds the arrow-key focus order of the strip.
pub fn focus_order(
    tabs: &Vec<TabFlags>,
    close_on_pointer_over: bool,
    selected: Option<usize>,
    hovered: Option<usize>,
    add_button_visible: bool,
) -> (r: Vec<FocusStop>)
    ensures
        r@ == spec_focus_order(tabs@, close_on_pointer_over, selected, hovered, add_button_visible),
{
    let mut r: Vec<FocusStop> = Vec::new();
    let mut i: usize = 0;
    while i < tabs.len()
        invariant
            i <= tabs.len(),
            r@ == spec_tab_stops(tabs@, i as int, close_on_pointer_over, selected, hovered),
        decreases tabs.len() - i,
    {
        let tab = tabs[i];
        if tab.is_enabled && tab.is_visible {
            r.push(FocusStop::Tab(i));
            let shown = tab.is_closable && (!close_on_pointer_over || match selected {
                Some(s) => s == i,
                None => false,
            } || match hovered {
                Some(h) => h == i,
                None => false,
            });
            if shown {
                r.push(FocusStop::Close(i));
            }
        }
        i += 1;
        assert(r@ =~= spec_tab_stops(tabs@, i as int, close_on_pointer_over, selected, hovered));
    }
    if add_button_visible {
        r.push(FocusStop::AddButton);
    }
    r
}

/// The position after `current` among `count` focus stops, wrapping around; with no current
/// stop the first (moving down) or the last (moving up).
pub open spec fn spec_cycle(current: Option<usize>, count: int, forward: bool) -> int {
    match current {
        Some(i) => if forward {
            if i + 1 < count {
                i + 1
            } else {
                0
            }
        } else {
            if i > 0 {
                i - 1
            } else {
                count - 1
            }
        },
        None => if forward {
            0
        } else {
            count - 1
        },
    }
}

/// Moves to the next or previous of `count` focus stops, wrapping around the ends.
pub fn cycle_index(current: Option<usize>, count: usize, forward: bool) -> (r: usize)
    requires
        count > 0,
        current matches Some(i) ==> i < count,
    ensures
        r == spec_cycle(current, count as int, forward),
        r < count,
{
    match current {
        Some(i) => if forward {
            if i + 1 < count {
                i + 1
            } else {
                0
            }
        } else {
            if i > 0 {
                i - 1
            } else {
                count - 1
            }
        },
        None => if forward {
            0
        } else {
            count - 1
        },
    }
}

/// Moving forward and then back returns to the same focus stop.
pub proof fn lemma_cycle_round_trip(i: usize, count: int)
    requires
        0 <= i < count,
        count <= usize::MAX,
    ensures
        spec_cycle(Some(spec_cycle(Some(i), count, true) as usize), count, false) == i,
        spec_cycle(Some(spec_cycle(Some(i), count, false) as usize), count, true) == i,
{
}


/// An optional index as a machine index.
pub open spec fn spec_opt_usize(o: Option<int>) -> Option<usize> {
    match o {
        Some(i) => Some(i as usize),
        None => None,
    }
}

/// The identities of a collection of tabs, as character sequences.
pub open spec fn spec_ids(ids: Seq<String>) -> Seq<Seq<char>> {
    ids.map_values(|s: String| s@)
}

/// `i` is the first position of `id` in `ids`.
pub open spec fn spec_is_first_index(ids: Seq<Seq<char>>, id: Seq<char>, i: int) -> bool {
    &&& 0 <= i < ids.len()
    &&& ids[i] == id
    &&& forall|j: int| 0 <= j < i ==> ids[j] != id
}

/// The first position of `id` in `ids`, if it occurs.
pub open spec fn spec_index_of(ids: Seq<Seq<char>>, id: Seq<char>) -> Option<int> {
    if exists|i: int| 0 <= i < ids.len() && ids[i] == id {
        Some(choose|i: int| spec_is_first_index(ids, id, i))
    } else {
        None
    }
}

/// A first position of an identity is the one `spec_index_of` names.
pub proof fn lemma_first_index_is_unique(ids: Seq<Seq<char>>, id: Seq<char>, i: int)
    requires
        spec_is_first_index(ids, id, i),
    ensures
        spec_index_of(ids, id) == Some(i),
{
    assert(exists|k: int| 0 <= k < ids.len() && ids[k] == id);
    let c = choose|k: int| spec_is_first_index(ids, id, k);
    assert(spec_is_first_index(ids, id, c));
    if c < i {
        assert(ids[c] != id);
    } else if c > i {
        assert(ids[i] != id);
    }
}

/// The position of a tab identity in a collection.
pub fn index_of(ids: &Vec<String>, id: &String) -> (r: Option<usize>)
    ensures
        r == spec_opt_usize(spec_index_of(spec_ids(ids@), id@)),
        r matches Some(i) ==> i < ids.len() && ids[i as int]@ == id@,
{
    let ghost views = spec_ids(ids@);
    let mut i: usize = 0;
    while i < ids.len()
        invariant
            i <= ids.len(),
            views == spec_ids(ids@),
            forall|j: int| 0 <= j < i ==> views[j] != id@,
        decreases ids.len() - i,
    {
        if ids[i] == *id {
            proof {
                lemma_first_index_is_unique(views, id@, i as int);
            }
            return Some(i);
        }
        i += 1;
    }
    None
}

/// `i` is the first position at which the first `n` identities of two collections differ.
pub open spec fn spec_is_first_mismatch(
    old: Seq<Seq<char>>,
    new: Seq<Seq<char>>,
    n: int,
    i: int,
) -> bool {
    &&& 0 <= i < n
    &&& old[i] != new[i]
    &&& forall|j: int| 0 <= j < i ==> old[j] == new[j]
}

/// The first position below `n` at which two collections differ, or `n`.
pub open spec fn spec_first_mismatch(old: Seq<Seq<char>>, new: Seq<Seq<char>>, n: int) -> int {
    if exists|i: int| 0 <= i < n && old[i] != new[i] {
        choose|i: int| spec_is_first_mismatch(old, new, n, i)
    } else {
        n
    }
}

/// The position removed from `old` to give `new`, when `new` is `old` with exactly one tab
/// taken out.
pub open spec fn spec_single_removal(old: Seq<Seq<char>>, new: Seq<Seq<char>>) -> Option<int> {
    if old.len() == new.len() + 1 {
        let r = spec_first_mismatch(old, new, new.len() as int);
        if old.subrange(r + 1, old.len() as int) == new.subrange(r, new.len() as int) {
            Some(r)
        } else {
            None
        }
    } else {
        None
    }
}

/// Finds the position of a single removed tab, if `new` is `old` with one tab taken out.
pub fn single_removal(old: &Vec<String>, new: &Vec<String>) -> (r: Option<usize>)
    ensures
        r == spec_opt_usize(spec_single_removal(spec_ids(old@), spec_ids(new@))),
{
    let ghost o = spec_ids(old@);
    let ghost n = spec_ids(new@);
    if old.len() == 0 || old.len() - 1 != new.len() {
        return None;
    }
    let mut removed: usize = 0;
    while removed < new.len() && old[removed] == new[removed]
        invariant
            removed <= new.len(),
            old.len() == new.len() + 1,
            o == spec_ids(old@),
            n == spec_ids(new@),
            forall|j: int| 0 <= j < removed ==> o[j] == n[j],
        decreases new.len() - removed,
    {
        removed += 1;
    }
    proof {
        if removed < new.len() {
            assert(spec_is_first_mismatch(o, n, new.len() as int, removed as int));
            assert(exists|i: int| 0 <= i < new.len() && o[i] != n[i]);
            let c = choose|i: int| spec_is_first_mismatch(o, n, new.len() as int, i);
            assert(spec_is_first_mismatch(o, n, new.len() as int, c));
            if c < removed {
                assert(o[c] == n[c]);
            } else if c > removed {
                assert(o[removed as int] == n[removed as int]);
            }
        }
        assert(spec_first_mismatch(o, n, new.len() as int) == removed);
    }
    let mut k: usize = removed;
    while k < new.len()
        invariant
            removed <= k <= new.len(),
            old.len() == new.len() + 1,
            o == spec_ids(old@),
            n == spec_ids(new@),
            forall|j: int| removed <= j < k ==> o[j + 1] == n[j],
            spec_first_mismatch(o, n, new.len() as int) == removed,
        decreases new.len() - k,
    {
        if !(old[k + 1] == new[k]) {
            proof {
                assert(o[k + 1] == old@[k + 1]@);
                assert(n[k as int] == new@[k as int]@);
                let a = o.subrange(removed + 1, old.len() as int);
                let b = n.subrange(removed as int, new.len() as int);
                assert(a[k - removed] != b[k - removed]);
                assert(a != b);
            }
            return None;
        }
        k += 1;
    }
    proof {
        assert(o.subrange(removed + 1, old.len() as int) =~= n.subrange(
            removed as int,
            new.len() as int,
        ));
    }
    Some(removed)
}


/// The position `spec_index_of` names lies inside the collection and holds the identity.
pub proof fn lemma_index_of_in_range(ids: Seq<Seq<char>>, id: Seq<char>)
    ensures
        spec_index_of(ids, id) matches Some(i) ==> 0 <= i < ids.len() && ids[i] == id,
{
    if exists|i: int| 0 <= i < ids.len() && ids[i] == id {
        let w = choose|i: int| 0 <= i < ids.len() && ids[i] == id;
        lemma_first_index_exists(ids, id, w);
    }
}

/// The tab `spec_first_available` names lies inside the collection and is available.
pub proof fn lemma_first_available_in_range(
    tabs: Seq<TabFlags>,
    start: int,
    forward: bool,
    lo: int,
    hi: int,
)
    requires
        0 <= start < tabs.len(),
        0 <= lo <= hi <= tabs.len(),
    ensures
        spec_first_available(tabs, start, forward, lo, hi) matches Some(i) ==> 0 <= i
            < tabs.len() && spec_available(tabs[i]),
{
    if exists|s: int| lo <= s <= hi && spec_step_available(tabs, start, forward, s) {
        let w = choose|s: int| lo <= s <= hi && spec_step_available(tabs, start, forward, s);
        lemma_first_step_exists(tabs, start, forward, lo, hi, w);
    }
}

/// The first mismatch below `n` lies in `0..=n`.
pub proof fn lemma_first_mismatch_in_range(old: Seq<Seq<char>>, new: Seq<Seq<char>>, n: int)
    requires
        0 <= n,
    ensures
        0 <= spec_first_mismatch(old, new, n) <= n,
{
    if exists|i: int| 0 <= i < n && old[i] != new[i] {
        let w = choose|i: int| 0 <= i < n && old[i] != new[i];
        lemma_first_mismatch_exists(old, new, n, w);
    }
}

/// When two collections differ below `n`, a first mismatch exists.
pub proof fn lemma_first_mismatch_exists(old: Seq<Seq<char>>, new: Seq<Seq<char>>, n: int, i: int)
    requires
        0 <= i < n,
        old[i] != new[i],
    ensures
        exists|k: int| spec_is_first_mismatch(old, new, n, k),
    decreases i,
{
    if exists|j: int| 0 <= j < i && old[j] != new[j] {
        let j = choose|j: int| 0 <= j < i && old[j] != new[j];
        lemma_first_mismatch_exists(old, new, n, j);
    } else {
        assert(spec_is_first_mismatch(old, new, n, i));
    }
}

/// The position of a single removed tab lies inside the old collection.
pub proof fn lemma_single_removal_in_range(old: Seq<Seq<char>>, new: Seq<Seq<char>>)
    ensures
        spec_single_removal(old, new) matches Some(i) ==> 0 <= i < old.len(),
{
    lemma_first_mismatch_in_range(old, new, new.len() as int);
}

/// The removed position lies inside the old collection.
pub proof fn lemma_removed_index_in_range(
    old_ids: Seq<String>,
    new_ids: Seq<String>,
    old_selected_id: Option<String>,
)
    ensures
        spec_removed_index(old_ids, new_ids, old_selected_id) matches Some(i) ==> 0 <= i
            < old_ids.len(),
{
    if let Some(id) = old_selected_id {
        lemma_index_of_in_range(spec_ids(old_ids), id@);
        lemma_index_of_in_range(spec_ids(new_ids), id@);
    }
    lemma_single_removal_in_range(spec_ids(old_ids), spec_ids(new_ids));
}

/// The outcome of reconciling the retained selection with a new collection.
#[derive(Clone, Copy, Debug, PartialEq, Eq, Structural)]
pub struct SelectionUpdate {
    /// The index the strip now selects.
    pub next: Option<usize>,
    /// Whether the owner must be told about the selection, because it differs from the owner's.
    pub notify: bool,
    /// The position of a tab taken out of the collection, if one was.
    pub removed: Option<usize>,
}

/// The position in a collection of the retained selected identity.
pub open spec fn spec_position_of_selected(ids: Seq<String>, selected_id: Option<String>) -> Option<
    int,
> {
    match selected_id {
        Some(id) => spec_index_of(spec_ids(ids), id@),
        None => None,
    }
}

/// The position the selected tab was removed from: where the retained selection was when it is
/// no longer in the collection, or, with no retained selection, the position of a single removed
/// tab.
pub open spec fn spec_removed_index(
    old_ids: Seq<String>,
    new_ids: Seq<String>,
    old_selected_id: Option<String>,
) -> Option<int> {
    let old_index = spec_position_of_selected(old_ids, old_selected_id);
    let retained = spec_position_of_selected(new_ids, old_selected_id);
    if old_index is Some && retained is None {
        old_index
    } else if old_selected_id is None {
        spec_single_removal(spec_ids(old_ids), spec_ids(new_ids))
    } else {
        None
    }
}

/// The tab selected after the owner supplies a new collection: a valid index the owner newly
/// selected wins; otherwise, when the selected tab was removed, the first available tab from the
/// removed position onwards, wrapping around; otherwise the owner's new choice if it is valid
/// when the owner changed it, and else the same tab as before, found by identity.
pub open spec fn spec_next_selection(
    old_ids: Seq<String>,
    new_ids: Seq<String>,
    new_tabs: Seq<TabFlags>,
    old_selected_id: Option<String>,
    old_owner_selected: Option<usize>,
    new_owner_selected: Option<usize>,
) -> Option<int> {
    let count = new_tabs.len() as int;
    let owner_changed = old_owner_selected != new_owner_selected;
    let owner_valid = spec_owner_valid(new_owner_selected, count);
    if owner_changed && owner_valid {
        Some(new_owner_selected.unwrap() as int)
    } else {
        match spec_removed_index(old_ids, new_ids, old_selected_id) {
            Some(removed) => if count == 0 {
                None
            } else {
                spec_first_available(
                    new_tabs,
                    if removed <= count - 1 {
                        removed
                    } else {
                        count - 1
                    },
                    true,
                    0,
                    count - 1,
                )
            },
            None => if owner_changed {
                if owner_valid {
                    Some(new_owner_selected.unwrap() as int)
                } else {
                    None
                }
            } else {
                spec_position_of_selected(new_ids, old_selected_id)
            },
        }
    }
}

/// Whether the owner's selected index names a tab of a collection of `count` tabs.
pub open spec fn spec_owner_valid(selected: Option<usize>, count: int) -> bool {
    match selected {
        Some(k) => k < count,
        None => false,
    }
}

/// Reconciles the retained selected identity with the collection the owner supplies.
pub fn reconcile_selection(
    old_ids: &Vec<String>,
    new_ids: &Vec<String>,
    new_tabs: &Vec<TabFlags>,
    old_selected_id: &Option<String>,
    old_owner_selected: Option<usize>,
    new_owner_selected: Option<usize>,
) -> (r: SelectionUpdate)
    requires
        new_ids.len() == new_tabs.len(),
    ensures
        r.next == spec_opt_usize(
            spec_next_selection(
                old_ids@,
                new_ids@,
                new_tabs@,
                *old_selected_id,
                old_owner_selected,
                new_owner_selected,
            ),
        ),
        r.notify == (r.next != new_owner_selected),
        r.removed == (match spec_single_removal(spec_ids(old_ids@), spec_ids(new_ids@)) {
            Some(i) => Some(i as usize),
            None => spec_opt_usize(spec_removed_index(old_ids@, new_ids@, *old_selected_id)),
        }),
{
    proof {
        lemma_removed_index_in_range(old_ids@, new_ids@, *old_selected_id);
        if let Some(id) = old_selected_id {
            lemma_index_of_in_range(spec_ids(new_ids@), id@);
        }
    }
    let old_index = match old_selected_id {
        Some(id) => index_of(old_ids, id),
        None => None,
    };
    let retained = match old_selected_id {
        Some(id) => index_of(new_ids, id),
        None => None,
    };
    let single = single_removal(old_ids, new_ids);
    let removed_index = if old_index.is_some() && retained.is_none() {
        old_index
    } else if old_selected_id.is_none() {
        single
    } else {
        None
    };
    let count = new_tabs.len();
    let owner_changed = !same_index(old_owner_selected, new_owner_selected);
    let owner_valid = match new_owner_selected {
        Some(k) => k < count,
        None => false,
    };
    let next = if owner_changed && owner_valid {
        new_owner_selected
    } else if let Some(removed) = removed_index {
        if count == 0 {
            None
        } else {
            let start = if removed <= count - 1 {
                removed
            } else {
                count - 1
            };
            scan_available(new_tabs, start, true, 0, count - 1)
        }
    } else if owner_changed {
        if owner_valid {
            new_owner_selected
        } else {
            None
        }
    } else {
        retained
    };
    let removed = match single {
        Some(i) => Some(i),
        None => removed_index,
    };
    SelectionUpdate { next, notify: !same_index(next, new_owner_selected), removed }
}

/// Whether two optional indices are the same.
pub fn same_index(a: Option<usize>, b: Option<usize>) -> (r: bool)
    ensures
        r == (a == b),
{
    match (a, b) {
        (Some(x), Some(y)) => x == y,
        (None, None) => true,
        _ => false,
    }
}

/// The reconciled selection is always a tab of the new collection; a valid index the owner
/// newly chooses is kept; a selection that survived by identity stays on the same tab when the
/// owner did not change its choice; and a replacement for a removed selected tab is available.
pub proof fn lemma_reconciled_selection_is_valid(
    old_ids: Seq<String>,
    new_ids: Seq<String>,
    new_tabs: Seq<TabFlags>,
    old_selected_id: Option<String>,
    old_owner_selected: Option<usize>,
    new_owner_selected: Option<usize>,
)
    requires
        new_ids.len() == new_tabs.len(),
    ensures
        spec_next_selection(
            old_ids,
            new_ids,
            new_tabs,
            old_selected_id,
            old_owner_selected,
            new_owner_selected,
        ) matches Some(i) ==> 0 <= i < new_tabs.len(),
        (old_owner_selected != new_owner_selected && spec_owner_valid(
            new_owner_selected,
            new_tabs.len() as int,
        )) ==> spec_next_selection(
            old_ids,
            new_ids,
            new_tabs,
            old_selected_id,
            old_owner_selected,
            new_owner_selected,
        ) == Some(new_owner_selected.unwrap() as int),
        (old_owner_selected == new_owner_selected && old_selected_id is Some && (exists|i: int|
            0 <= i < new_ids.len() && new_ids[i]@ == old_selected_id.unwrap()@)) ==> (spec_next_selection(
            old_ids,
            new_ids,
            new_tabs,
            old_selected_id,
            old_owner_selected,
            new_owner_selected,
        ) matches Some(i) && new_ids[i]@ == old_selected_id.unwrap()@),
        (spec_removed_index(old_ids, new_ids, old_selected_id) is Some && !(old_owner_selected
            != new_owner_selected && spec_owner_valid(new_owner_selected, new_tabs.len() as int)))
            ==> (spec_next_selection(
            old_ids,
            new_ids,
            new_tabs,
            old_selected_id,
            old_owner_selected,
            new_owner_selected,
        ) matches Some(i) ==> spec_available(new_tabs[i])),
{
    let count = new_tabs.len() as int;
    let next = spec_next_selection(
        old_ids,
        new_ids,
        new_tabs,
        old_selected_id,
        old_owner_selected,
        new_owner_selected,
    );
    let views = spec_ids(new_ids);
    lemma_removed_index_in_range(old_ids, new_ids, old_selected_id);
    if let Some(id) = old_selected_id {
        lemma_index_of_in_range(views, id@);
        if exists|i: int| 0 <= i < new_ids.len() && new_ids[i]@ == id@ {
            let w = choose|i: int| 0 <= i < new_ids.len() && new_ids[i]@ == id@;
            assert(views[w] == id@);
        }
    }
    if let Some(removed) = spec_removed_index(old_ids, new_ids, old_selected_id) {
        if count > 0 {
            let start = if removed <= count - 1 {
                removed
            } else {
                count - 1
            };
            lemma_first_available_in_range(new_tabs, start, true, 0, count - 1);
        }
    }
}

/// When an identity occurs in a collection, a first position of it exists.
pub proof fn lemma_first_index_exists(ids: Seq<Seq<char>>, id: Seq<char>, i: int)
    requires
        0 <= i < ids.len(),
        ids[i] == id,
    ensures
        exists|k: int| spec_is_first_index(ids, id, k),
    decreases i,
{
    if exists|j: int| 0 <= j < i && ids[j] == id {
        let j = choose|j: int| 0 <= j < i && ids[j] == id;
        lemma_first_index_exists(ids, id, j);
    } else {
        assert(spec_is_first_index(ids, id, i));
    }
}

/// The modifier keys held during a key event.
#[derive(Clone, Copy, Debug, PartialEq, Eq, Structural)]
pub struct Modifiers {
    pub control: bool,
    pub shift: bool,
    pub alt: bool,
}

/// What a key event in the strip's scope asks for.
#[derive(Clone, Copy, Debug, PartialEq, Eq, Structural)]
pub enum TabKeyAction {
    /// Not handled by the strip.
    Ignore,
    /// Consumed without effect, as every key is while a tab is dragged.
    Consume,
    /// Moves the focused tab one place; handled when a header has focus.
    Reorder { forward: bool },
    /// Moves the selection; handled when some tab can be selected.
    MoveSelection { forward: bool },
    /// Requests closing the selected tab.
    CloseSelected,
    /// Moves focus along the strip's focus order; handled when a stop has focus.
    MoveFocus { forward: bool },
}

/// The accelerator policy: Alt+Shift+arrow reorders (right and down move forward, mirrored in
/// right-to-left layout), Ctrl+Tab and Ctrl+Shift+Tab move the selection, Ctrl+F4 closes the
/// selected tab when it is closable, and the horizontal arrows move focus unless Alt+Shift is
/// held. Only key-down events count, and a drag in progress consumes every one.
pub open spec fn spec_tab_key_action(
    key: Key,
    is_down: bool,
    mods: Modifiers,
    rtl: bool,
    dragging: bool,
    selected_closable: bool,
) -> TabKeyAction {
    let arrow = key == Key::ArrowLeft || key == Key::ArrowRight || key == Key::ArrowUp
        || key == Key::ArrowDown;
    if !is_down {
        TabKeyAction::Ignore
    } else if dragging {
        TabKeyAction::Consume
    } else if arrow && mods.alt && mods.shift && !mods.control {
        TabKeyAction::Reorder {
            forward: (key == Key::ArrowRight || key == Key::ArrowDown) != rtl,
        }
    } else if mods.control && key == Key::Tab {
        TabKeyAction::MoveSelection { forward: !mods.shift }
    } else if mods.control && key == Key::F4 {
        if selected_closable {
            TabKeyAction::CloseSelected
        } else {
            TabKeyAction::Ignore
        }
    } else if (key == Key::ArrowLeft || key == Key::ArrowRight) && !(mods.alt && mods.shift) {
        TabKeyAction::MoveFocus { forward: (key == Key::ArrowRight) != rtl }
    } else {
        TabKeyAction::Ignore
    }
}

/// Decides what a key event in the strip's scope asks for.
pub fn tab_key_action(
    key: Key,
    is_down: bool,
    mods: Modifiers,
    rtl: bool,
    dragging: bool,
    selected_closable: bool,
) -> (r: TabKeyAction)
    ensures
        r == spec_tab_key_action(key, is_down, mods, rtl, dragging, selected_closable),
{
    let arrow = match key {
        Key::ArrowLeft | Key::ArrowRight | Key::ArrowUp | Key::ArrowDown => true,
        _ => false,
    };
    if !is_down {
        TabKeyAction::Ignore
    } else if dragging {
        TabKeyAction::Consume
    } else if arrow && mods.alt && mods.shift && !mods.control {
        let toward_end = match key {
            Key::ArrowRight | Key::ArrowDown => true,
            _ => false,
        };
        TabKeyAction::Reorder { forward: toward_end != rtl }
    } else if mods.control && key == Key::Tab {
        TabKeyAction::MoveSelection { forward: !mods.shift }
    } else if mods.control && key == Key::F4 {
        if selected_closable {
            TabKeyAction::CloseSelected
        } else {
            TabKeyAction::Ignore
        }
    } else if (key == Key::ArrowLeft || key == Key::ArrowRight) && !(mods.alt && mods.shift) {
        TabKeyAction::MoveFocus { forward: (key == Key::ArrowRight) != rtl }
    } else {
        TabKeyAction::Ignore
    }
}


/// Whether a tab can be asked to close: it is closable and enabled.
pub fn close_request_allowed(tab: TabFlags) -> (r: bool)
    ensures
        r == (tab.is_closable && tab.is_enabled),
{
    tab.is_closable && tab.is_enabled
}

/// Where keyboard focus goes once the owner has removed a closed tab that held it.
#[derive(Clone, Copy, Debug, PartialEq, Eq, Structural)]
pub enum FocusAfterClose {
    /// The owner kept the tab; focus stays.
    StillOpen,
    /// The header of the tab now at this index.
    Tab(usize),
    /// The add-tab button.
    AddButton,
    /// Nowhere in the strip.
    Nothing,
}

/// The first position among the first `n` tabs with identity `id` that is available.
pub open spec fn spec_available_position(
    ids: Seq<Seq<char>>,
    tabs: Seq<TabFlags>,
    id: Seq<char>,
    n: int,
) -> Option<int>
    decreases n,
{
    if n <= 0 {
        None
    } else {
        match spec_available_position(ids, tabs, id, n - 1) {
            Some(i) => Some(i),
            None => if ids[n - 1] == id && spec_available(tabs[n - 1]) {
                Some(n - 1)
            } else {
                None
            },
        }
    }
}

/// The position found for the first of the first `k` candidate identities that names an
/// available tab.
pub open spec fn spec_first_candidate(
    ids: Seq<Seq<char>>,
    tabs: Seq<TabFlags>,
    candidates: Seq<Seq<char>>,
    k: int,
) -> Option<int>
    decreases k,
{
    if k <= 0 {
        None
    } else {
        match spec_first_candidate(ids, tabs, candidates, k - 1) {
            Some(i) => Some(i),
            None => spec_available_position(ids, tabs, candidates[k - 1], ids.len() as int),
        }
    }
}

/// The identities of the close focus candidates of the tab at `index`: every later tab in
/// order, then every earlier tab nearest first.
pub open spec fn spec_candidate_ids(old_ids: Seq<String>, index: int) -> Seq<Seq<char>> {
    spec_close_focus_candidates(index, old_ids.len() as int).map_values(
        |k: usize| old_ids[k as int]@,
    )
}

/// Once the tab at `index` of `old_ids` is gone from the owner's collection, focus goes to the
/// first candidate, in candidate order, that is still there and available; failing that, to the
/// add-tab button when it is visible.
pub open spec fn spec_focus_after_close(
    old_ids: Seq<String>,
    index: int,
    new_ids: Seq<String>,
    new_tabs: Seq<TabFlags>,
    add_button_visible: bool,
) -> FocusAfterClose {
    if spec_ids(new_ids).contains(old_ids[index]@) {
        FocusAfterClose::StillOpen
    } else {
        match spec_first_candidate(
            spec_ids(new_ids),
            new_tabs,
            spec_candidate_ids(old_ids, index),
            old_ids.len() - 1,
        ) {
            Some(i) => FocusAfterClose::Tab(i as usize),
            None => if add_button_visible {
                FocusAfterClose::AddButton
            } else {
                FocusAfterClose::Nothing
            },
        }
    }
}

/// A position found for an identity holds that identity and an available tab.
pub proof fn lemma_available_position_in_range(
    ids: Seq<Seq<char>>,
    tabs: Seq<TabFlags>,
    id: Seq<char>,
    n: int,
)
    requires
        n <= ids.len(),
        ids.len() == tabs.len(),
    ensures
        spec_available_position(ids, tabs, id, n) matches Some(i) ==> 0 <= i < n && ids[i] == id
            && spec_available(tabs[i]),
    decreases n,
{
    if n > 0 {
        lemma_available_position_in_range(ids, tabs, id, n - 1);
    }
}

/// A position found for a candidate holds one of the candidates and an available tab.
pub proof fn lemma_first_candidate_in_range(
    ids: Seq<Seq<char>>,
    tabs: Seq<TabFlags>,
    candidates: Seq<Seq<char>>,
    k: int,
)
    requires
        k <= candidates.len(),
        ids.len() == tabs.len(),
    ensures
        spec_first_candidate(ids, tabs, candidates, k) matches Some(i) ==> 0 <= i < ids.len()
            && spec_available(tabs[i]) && exists|c: int| 0 <= c < k && candidates[c] == ids[i],
    decreases k,
{
    if k > 0 {
        lemma_first_candidate_in_range(ids, tabs, candidates, k - 1);
        lemma_available_position_in_range(ids, tabs, candidates[k - 1], ids.len() as int);
        if let Some(i) = spec_first_candidate(ids, tabs, candidates, k) {
            if spec_first_candidate(ids, tabs, candidates, k - 1) is Some {
                let c = choose|c: int| 0 <= c < k - 1 && candidates[c] == ids[i];
                assert(0 <= c < k && candidates[c] == ids[i]);
            } else {
                assert(candidates[k - 1] == ids[i]);
            }
        }
    }
}

fn available_position(ids: &Vec<String>, tabs: &Vec<TabFlags>, id: &String) -> (r: Option<usize>)
    requires
        ids.len() == tabs.len(),
    ensures
        r == spec_opt_usize(spec_available_position(spec_ids(ids@), tabs@, id@, ids.len() as int)),
{
    let mut r: Option<usize> = None;
    let mut i: usize = 0;
    while i < ids.len()
        invariant
            i <= ids.len() == tabs.len(),
            r == spec_opt_usize(spec_available_position(spec_ids(ids@), tabs@, id@, i as int)),
        decreases ids.len() - i,
    {
        if r.is_none() && ids[i] == *id && tabs[i].is_enabled && tabs[i].is_visible {
            r = Some(i);
        }
        proof {
            assert(spec_ids(ids@)[i as int] == ids@[i as int]@);
        }
        i += 1;
    }
    r
}

fn contains_id(ids: &Vec<String>, id: &String) -> (r: bool)
    ensures
        r == spec_ids(ids@).contains(id@),
{
    let mut i: usize = 0;
    while i < ids.len()
        invariant
            i <= ids.len(),
            forall|j: int| 0 <= j < i ==> spec_ids(ids@)[j] != id@,
        decreases ids.len() - i,
    {
        if ids[i] == *id {
            proof {
                assert(spec_ids(ids@)[i as int] == id@);
            }
            return true;
        }
        i += 1;
    }
    false
}

/// Decides where focus goes after the tab at `index` of `old_ids` closed while it held focus,
/// once the owner supplies its new collection.
pub fn focus_after_close(
    old_ids: &Vec<String>,
    index: usize,
    new_ids: &Vec<String>,
    new_tabs: &Vec<TabFlags>,
    add_button_visible: bool,
) -> (r: FocusAfterClose)
    requires
        index < old_ids.len(),
        new_ids.len() == new_tabs.len(),
    ensures
        r == spec_focus_after_close(old_ids@, index as int, new_ids@, new_tabs@, add_button_visible),
{
    if contains_id(new_ids, &old_ids[index]) {
        return FocusAfterClose::StillOpen;
    }
    let candidates = close_focus_candidates(index, old_ids.len());
    let ghost cand_ids = spec_candidate_ids(old_ids@, index as int);
    let mut found: Option<usize> = None;
    let mut k: usize = 0;
    while k < candidates.len()
        invariant
            index < old_ids.len(),
            new_ids.len() == new_tabs.len(),
            candidates@ == spec_close_focus_candidates(index as int, old_ids.len() as int),
            cand_ids == spec_candidate_ids(old_ids@, index as int),
            k <= candidates.len(),
            found == spec_opt_usize(spec_first_candidate(spec_ids(new_ids@), new_tabs@, cand_ids, k as int)),
        decreases candidates.len() - k,
    {
        proof {
            lemma_close_focus_candidates_cover_others(index as int, old_ids.len() as int);
        }
        let c = candidates[k];
        if found.is_none() {
            found = available_position(new_ids, new_tabs, &old_ids[c]);
        }
        proof {
            assert(cand_ids[k as int] == old_ids@[c as int]@);
        }
        k += 1;
    }
    proof {
        lemma_close_focus_candidates_cover_others(index as int, old_ids.len() as int);
        assert(candidates.len() == old_ids.len() - 1);
    }
    match found {
        Some(i) => FocusAfterClose::Tab(i),
        None => if add_button_visible {
            FocusAfterClose::AddButton
        } else {
            FocusAfterClose::Nothing
        },
    }
}

/// Focus after a close only ever lands on a tab that is available and was a neighbour of the
/// closed tab, and never stays in a strip from which the closed tab is gone.
pub proof fn lemma_focus_after_close_lands_on_a_neighbour(
    old_ids: Seq<String>,
    index: int,
    new_ids: Seq<String>,
    new_tabs: Seq<TabFlags>,
    add_button_visible: bool,
)
    requires
        0 <= index < old_ids.len() <= usize::MAX,
        new_ids.len() == new_tabs.len(),
        new_ids.len() <= usize::MAX,
    ensures
        spec_focus_after_close(old_ids, index, new_ids, new_tabs, add_button_visible) matches FocusAfterClose::Tab(i)
            ==> i < new_ids.len() && spec_available(new_tabs[i as int]) && exists|j: int|
            0 <= j < old_ids.len() && j != index && old_ids[j]@ == new_ids[i as int]@,
        (spec_focus_after_close(old_ids, index, new_ids, new_tabs, add_button_visible)
            == FocusAfterClose::StillOpen) == spec_ids(new_ids).contains(old_ids[index]@),
{
    let ids = spec_ids(new_ids);
    let cands = spec_candidate_ids(old_ids, index);
    lemma_close_focus_candidates_cover_others(index, old_ids.len() as int);
    lemma_first_candidate_in_range(ids, new_tabs, cands, old_ids.len() - 1);
    if let FocusAfterClose::Tab(i) = spec_focus_after_close(old_ids, index, new_ids, new_tabs, add_button_visible) {
        let r = spec_first_candidate(ids, new_tabs, cands, old_ids.len() - 1).unwrap();
        assert(r == i as int);
        let c = choose|c: int| 0 <= c < old_ids.len() - 1 && cands[c] == ids[r];
        let j = spec_close_focus_candidates(index, old_ids.len() as int)[c] as int;
        assert(old_ids[j]@ == new_ids[i as int]@);
    }
}


/// Alt+Shift with an arrow reorders the focused tab: Right and Down move it towards the end
/// and Left and Up towards the start in a left-to-right strip, a right-to-left strip turns both
/// around, and Left and Right always move it in opposite directions. Plain Left and Right move
/// focus the same way, and Ctrl+Tab and Ctrl+Shift+Tab move the selection in opposite directions.
pub proof fn lemma_tab_keys_follow_direction(rtl: bool, closable: bool)
    ensures
        ({
            let alt_shift = Modifiers { control: false, shift: true, alt: true };
            let plain = Modifiers { control: false, shift: false, alt: false };
            let ctrl = Modifiers { control: true, shift: false, alt: false };
            let ctrl_shift = Modifiers { control: true, shift: true, alt: false };
            &&& spec_tab_key_action(Key::ArrowLeft, true, alt_shift, rtl, false, closable)
                == TabKeyAction::Reorder { forward: rtl }
            &&& spec_tab_key_action(Key::ArrowUp, true, alt_shift, rtl, false, closable)
                == TabKeyAction::Reorder { forward: rtl }
            &&& spec_tab_key_action(Key::ArrowRight, true, alt_shift, rtl, false, closable)
                == TabKeyAction::Reorder { forward: !rtl }
            &&& spec_tab_key_action(Key::ArrowDown, true, alt_shift, rtl, false, closable)
                == TabKeyAction::Reorder { forward: !rtl }
            &&& spec_tab_key_action(Key::ArrowLeft, true, plain, rtl, false, closable)
                == TabKeyAction::MoveFocus { forward: rtl }
            &&& spec_tab_key_action(Key::ArrowRight, true, plain, rtl, false, closable)
                == TabKeyAction::MoveFocus { forward: !rtl }
            &&& spec_tab_key_action(Key::Tab, true, ctrl, rtl, false, closable)
                == TabKeyAction::MoveSelection { forward: true }
            &&& spec_tab_key_action(Key::Tab, true, ctrl_shift, rtl, false, closable)
                == TabKeyAction::MoveSelection { forward: false }
        }),
{
}

} // verus!
