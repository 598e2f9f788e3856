use reveal_winui::buttons::CommonState;
use reveal_winui::keys::Key;
use reveal_winui::tab_header::{
    close_visible, header_chrome, header_colors, shows_label, HeaderChrome, HeaderColors,
    TabBottomBorderState, TabViewCloseButtonOverlayMode, TabViewWidthMode,
};
use reveal_winui::tab_strip::{
    close_focus_candidates, close_request_allowed, cycle_index, cyclic_index, drop_destination,
    focus_after_close, focus_order, index_of, FocusAfterClose,
    keyboard_reorder_target, live_shift, move_selection, reconcile_selection, reordered_selection,
    same_index, selection_request, single_removal, tab_key_action, FocusStop, Modifiers,
    TabFlags, TabKeyAction,
};

fn tab() -> TabFlags {
    TabFlags { is_enabled: true, is_visible: true, is_closable: true }
}

fn disabled() -> TabFlags {
    TabFlags { is_enabled: false, ..tab() }
}

fn hidden() -> TabFlags {
    TabFlags { is_visible: false, ..tab() }
}

fn ids(names: &[&str]) -> Vec<String> {
    names.iter().map(|s| s.to_string()).collect()
}

const NONE: Modifiers = Modifiers { control: false, shift: false, alt: false };

#[test]
fn cyclic_index_wraps_both_ways() {
    assert_eq!(cyclic_index(3, 2, 4, true), 1);
    assert_eq!(cyclic_index(1, 2, 4, true), 3);
    assert_eq!(cyclic_index(1, 2, 4, false), 3);
    assert_eq!(cyclic_index(3, 2, 4, false), 1);
    assert_eq!(cyclic_index(2, 4, 4, false), 2);
}

#[test]
fn selection_moves_skip_unavailable_tabs_and_wrap() {
    let tabs = vec![tab(), disabled(), hidden(), tab()];
    assert_eq!(move_selection(&tabs, Some(0), true), Some(3));
    assert_eq!(move_selection(&tabs, Some(3), true), Some(0));
    assert_eq!(move_selection(&tabs, Some(0), false), Some(3));
    assert_eq!(move_selection(&tabs, None, true), Some(0));
    assert_eq!(move_selection(&tabs, None, false), Some(3));
}

#[test]
fn a_lone_available_tab_selects_itself_and_none_selects_nothing() {
    let tabs = vec![disabled(), tab(), hidden()];
    assert_eq!(move_selection(&tabs, Some(1), true), Some(1));
    assert_eq!(move_selection(&tabs, Some(1), false), Some(1));
    let none = vec![disabled(), hidden()];
    assert_eq!(move_selection(&none, Some(0), true), None);
    assert_eq!(move_selection(&Vec::new(), None, true), None);
}

#[test]
fn an_out_of_range_selection_starts_from_the_last_tab() {
    let tabs = vec![tab(), tab(), tab()];
    assert_eq!(move_selection(&tabs, Some(9), true), Some(0));
    assert_eq!(move_selection(&tabs, Some(9), false), Some(1));
}

#[test]
fn activation_requests_only_another_available_tab() {
    let tabs = vec![tab(), disabled(), tab()];
    assert_eq!(selection_request(&tabs, Some(0), 2), Some(2));
    assert_eq!(selection_request(&tabs, Some(2), 2), None);
    assert_eq!(selection_request(&tabs, Some(0), 1), None);
    assert_eq!(selection_request(&tabs, None, 5), None);
    assert_eq!(selection_request(&tabs, None, 0), Some(0));
}

#[test]
fn a_reorder_keeps_the_selected_tab_selected() {
    let order = vec!["a", "b", "c", "d", "e"];
    for from in 0..5 {
        for to in 0..5 {
            let mut moved = order.clone();
            let item = moved.remove(from);
            moved.insert(to, item);
            for selected in 0..5 {
                let next = reordered_selection(Some(selected), from, to).unwrap();
                assert_eq!(moved[next], order[selected]);
            }
        }
    }
    assert_eq!(reordered_selection(None, 1, 3), None);
    assert_eq!(reordered_selection(Some(2), 1, 3), Some(1));
    assert_eq!(reordered_selection(Some(2), 3, 0), Some(3));
}

#[test]
fn keyboard_reorder_stops_at_the_ends() {
    assert_eq!(keyboard_reorder_target(0, 3, false), None);
    assert_eq!(keyboard_reorder_target(0, 3, true), Some(1));
    assert_eq!(keyboard_reorder_target(2, 3, true), None);
    assert_eq!(keyboard_reorder_target(2, 3, false), Some(1));
}

#[test]
fn the_live_gap_previews_where_a_drop_lands() {
    assert_eq!(drop_destination(1, 4), 3);
    assert_eq!(drop_destination(3, 1), 1);
    assert_eq!(drop_destination(2, 2), 2);
    let order = vec![0usize, 1, 2, 3, 4];
    for from in 0..5 {
        for slot in 0..=5 {
            let to = drop_destination(from, slot);
            let mut moved = order.clone();
            let item = moved.remove(from);
            moved.insert(to, item);
            for index in 0..5 {
                if index == from {
                    continue;
                }
                let shift = live_shift(slot, from, index, false) as i64;
                let now = moved.iter().position(|x| *x == index).unwrap() as i64;
                assert_eq!(now, index as i64 + shift);
                assert_eq!(live_shift(slot, from, index, true) as i64, -shift);
            }
        }
    }
}

#[test]
fn focus_after_close_prefers_later_tabs_then_nearest_earlier() {
    assert_eq!(close_focus_candidates(2, 5), vec![3, 4, 1, 0]);
    assert_eq!(close_focus_candidates(0, 3), vec![1, 2]);
    assert_eq!(close_focus_candidates(2, 3), vec![1, 0]);
    assert_eq!(close_focus_candidates(0, 1), Vec::<usize>::new());
}

#[test]
fn focus_order_lists_tabs_their_close_buttons_and_the_add_button() {
    let tabs = vec![tab(), TabFlags { is_closable: false, ..tab() }, disabled(), tab()];
    assert_eq!(
        focus_order(&tabs, false, Some(0), None, true),
        vec![
            FocusStop::Tab(0),
            FocusStop::Close(0),
            FocusStop::Tab(1),
            FocusStop::Tab(3),
            FocusStop::Close(3),
            FocusStop::AddButton
        ]
    );
    assert_eq!(
        focus_order(&tabs, true, Some(0), Some(3), false),
        vec![FocusStop::Tab(0), FocusStop::Close(0), FocusStop::Tab(1), FocusStop::Tab(3), FocusStop::Close(3)]
    );
    assert_eq!(
        focus_order(&tabs, true, Some(1), None, false),
        vec![FocusStop::Tab(0), FocusStop::Tab(1), FocusStop::Tab(3)]
    );
}

#[test]
fn focus_cycles_around_the_stops() {
    assert_eq!(cycle_index(Some(2), 3, true), 0);
    assert_eq!(cycle_index(Some(0), 3, false), 2);
    assert_eq!(cycle_index(None, 3, true), 0);
    assert_eq!(cycle_index(None, 3, false), 2);
    for i in 0..4 {
        assert_eq!(cycle_index(Some(cycle_index(Some(i), 4, true)), 4, false), i);
    }
}

#[test]
fn identities_are_found_at_their_first_position() {
    let list = ids(&["a", "b", "a"]);
    assert_eq!(index_of(&list, &"a".to_string()), Some(0));
    assert_eq!(index_of(&list, &"b".to_string()), Some(1));
    assert_eq!(index_of(&list, &"z".to_string()), None);
}

#[test]
fn a_single_removed_tab_is_found() {
    assert_eq!(single_removal(&ids(&["a", "b", "c"]), &ids(&["a", "c"])), Some(1));
    assert_eq!(single_removal(&ids(&["a", "b", "c"]), &ids(&["a", "b"])), Some(2));
    assert_eq!(single_removal(&ids(&["a", "b", "c"]), &ids(&["c", "a"])), None);
    assert_eq!(single_removal(&ids(&["a", "b"]), &ids(&["a", "b"])), None);
    assert_eq!(single_removal(&ids(&["a", "b", "c"]), &ids(&["a"])), None);
}

#[test]
fn closing_the_selected_tab_selects_the_next_available_one() {
    let old = ids(&["a", "b", "c", "d"]);
    let new = ids(&["a", "c", "d"]);
    let tabs = vec![tab(), disabled(), tab()];
    let update = reconcile_selection(&old, &new, &tabs, &Some("b".to_string()), Some(1), Some(1));
    assert_eq!(update.removed, Some(1));
    assert_eq!(update.next, Some(2));
    assert!(update.notify);
}

#[test]
fn closing_the_last_tab_selects_the_new_last_one() {
    let old = ids(&["a", "b", "c"]);
    let new = ids(&["a", "b"]);
    let tabs = vec![tab(), tab()];
    let update = reconcile_selection(&old, &new, &tabs, &Some("c".to_string()), Some(2), Some(2));
    assert_eq!(update.removed, Some(2));
    assert_eq!(update.next, Some(1));
}

#[test]
fn a_moved_selection_follows_its_identity_and_an_owner_change_wins() {
    let old = ids(&["a", "b", "c"]);
    let new = ids(&["c", "a", "b"]);
    let tabs = vec![tab(), tab(), tab()];
    let follow = reconcile_selection(&old, &new, &tabs, &Some("b".to_string()), Some(1), Some(1));
    assert_eq!(follow.next, Some(2));
    assert_eq!(follow.removed, None);
    assert!(follow.notify);
    let owner = reconcile_selection(&old, &new, &tabs, &Some("b".to_string()), Some(1), Some(0));
    assert_eq!(owner.next, Some(0));
    assert!(!owner.notify);
    let unchanged = reconcile_selection(&old, &old, &tabs, &Some("b".to_string()), Some(1), Some(1));
    assert_eq!(unchanged.next, Some(1));
    assert!(!unchanged.notify);
}

#[test]
fn index_comparison() {
    assert!(same_index(None, None));
    assert!(same_index(Some(2), Some(2)));
    assert!(!same_index(Some(2), Some(3)));
    assert!(!same_index(None, Some(0)));
}

#[test]
fn tab_keys() {
    let alt_shift = Modifiers { alt: true, shift: true, control: false };
    let ctrl = Modifiers { control: true, ..NONE };
    let ctrl_shift = Modifiers { control: true, shift: true, alt: false };
    assert_eq!(
        tab_key_action(Key::ArrowRight, true, alt_shift, false, false, true),
        TabKeyAction::Reorder { forward: true }
    );
    assert_eq!(
        tab_key_action(Key::ArrowRight, true, alt_shift, true, false, true),
        TabKeyAction::Reorder { forward: false }
    );
    assert_eq!(
        tab_key_action(Key::Tab, true, ctrl, false, false, true),
        TabKeyAction::MoveSelection { forward: true }
    );
    assert_eq!(
        tab_key_action(Key::Tab, true, ctrl_shift, false, false, true),
        TabKeyAction::MoveSelection { forward: false }
    );
    assert_eq!(tab_key_action(Key::F4, true, ctrl, false, false, true), TabKeyAction::CloseSelected);
    assert_eq!(tab_key_action(Key::F4, true, ctrl, false, false, false), TabKeyAction::Ignore);
    assert_eq!(
        tab_key_action(Key::ArrowLeft, true, NONE, true, false, true),
        TabKeyAction::MoveFocus { forward: true }
    );
    assert_eq!(tab_key_action(Key::ArrowLeft, true, NONE, false, true, true), TabKeyAction::Consume);
    assert_eq!(tab_key_action(Key::ArrowLeft, false, NONE, false, false, true), TabKeyAction::Ignore);
    assert_eq!(tab_key_action(Key::ArrowUp, true, NONE, false, false, true), TabKeyAction::Ignore);
}

#[test]
fn header_separators_and_borders_around_the_selection() {
    let chrome: Vec<HeaderChrome> = (0..5).map(|i| header_chrome(i, 5, Some(2), None, false)).collect();
    let borders: Vec<TabBottomBorderState> = chrome.iter().map(|c| c.bottom_border).collect();
    assert_eq!(
        borders,
        vec![
            TabBottomBorderState::Normal,
            TabBottomBorderState::LeftOfSelectedTab,
            TabBottomBorderState::NoBottomBorderLine,
            TabBottomBorderState::RightOfSelectedTab,
            TabBottomBorderState::Normal
        ]
    );
    let separators: Vec<bool> = chrome.iter().map(|c| c.separator_visible).collect();
    assert_eq!(separators, vec![true, false, false, true, false]);
    let hovered = header_chrome(0, 5, Some(2), Some(1), false);
    assert!(!hovered.separator_visible);
    for i in 0..5 {
        assert_eq!(
            header_chrome(i, 5, Some(2), None, true).bottom_border,
            TabBottomBorderState::NoBottomBorderLine
        );
    }
    assert_eq!(header_chrome(0, 1, None, None, false), HeaderChrome {
        separator_visible: false,
        bottom_border: TabBottomBorderState::Normal
    });
}

#[test]
fn close_button_visibility() {
    let over = TabViewCloseButtonOverlayMode::OnPointerOver;
    assert!(close_visible(true, TabViewCloseButtonOverlayMode::Auto, false, CommonState::Normal));
    assert!(close_visible(true, TabViewCloseButtonOverlayMode::Always, false, CommonState::Normal));
    assert!(!close_visible(false, TabViewCloseButtonOverlayMode::Always, true, CommonState::Pressed));
    assert!(!close_visible(true, over, false, CommonState::Normal));
    assert!(close_visible(true, over, true, CommonState::Normal));
    assert!(close_visible(true, over, false, CommonState::PointerOver));
    assert!(close_visible(true, over, false, CommonState::Pressed));
    assert!(!close_visible(true, over, false, CommonState::Disabled));
}

#[test]
fn header_colors_and_compact_labels() {
    assert_eq!(header_colors(false, true, CommonState::Pressed), HeaderColors::Disabled);
    assert_eq!(header_colors(true, true, CommonState::Pressed), HeaderColors::Selected);
    assert_eq!(header_colors(true, false, CommonState::Pressed), HeaderColors::Pressed);
    assert_eq!(header_colors(true, false, CommonState::PointerOver), HeaderColors::PointerOver);
    assert_eq!(header_colors(true, false, CommonState::Normal), HeaderColors::Rest);
    assert!(!shows_label(TabViewWidthMode::Compact, false));
    assert!(shows_label(TabViewWidthMode::Compact, true));
    assert!(shows_label(TabViewWidthMode::Equal, false));
    assert!(shows_label(TabViewWidthMode::SizeToContent, false));
}

#[test]
fn only_closable_enabled_tabs_can_be_asked_to_close() {
    assert!(close_request_allowed(tab()));
    assert!(!close_request_allowed(TabFlags { is_closable: false, ..tab() }));
    assert!(!close_request_allowed(disabled()));
    assert!(close_request_allowed(hidden()));
}

#[test]
fn focus_moves_to_the_next_available_neighbour_after_a_close() {
    let old = ids(&["a", "b", "c", "d"]);
    let new = ids(&["a", "c", "d"]);
    assert_eq!(
        focus_after_close(&old, 1, &new, &vec![tab(), tab(), tab()], true),
        FocusAfterClose::Tab(1)
    );
    assert_eq!(
        focus_after_close(&old, 1, &new, &vec![tab(), disabled(), tab()], true),
        FocusAfterClose::Tab(2)
    );
    assert_eq!(
        focus_after_close(&old, 1, &new, &vec![tab(), disabled(), hidden()], true),
        FocusAfterClose::Tab(0)
    );
    assert_eq!(
        focus_after_close(&old, 1, &new, &vec![disabled(), disabled(), hidden()], true),
        FocusAfterClose::AddButton
    );
    assert_eq!(
        focus_after_close(&old, 1, &new, &vec![disabled(), disabled(), hidden()], false),
        FocusAfterClose::Nothing
    );
    assert_eq!(
        focus_after_close(&old, 1, &old, &vec![tab(), tab(), tab(), tab()], true),
        FocusAfterClose::StillOpen
    );
    let reordered = ids(&["d", "a", "c"]);
    assert_eq!(
        focus_after_close(&old, 1, &reordered, &vec![tab(), tab(), tab()], true),
        FocusAfterClose::Tab(2)
    );
}
