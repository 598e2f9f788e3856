use reveal_winui::buttons::CommonState;
use reveal_winui::navigation::{
    carried_items, item_layout, keep_at_least_one, resolve_pane_chrome, same_ids, ContentMargin,
    IconSlot, ItemPosition, NavPartition, PaneChromeInput,
};

fn ids(names: &[&str]) -> Vec<String> {
    names.iter().map(|s| s.to_string()).collect()
}

fn left_compact() -> PaneChromeInput {
    PaneChromeInput {
        pane_mode_top: false,
        pane_mode_left_minimal: false,
        pane_mode_auto: true,
        display_minimal: false,
        open: false,
        back_button_permitted: true,
        is_pane_visible: true,
        is_pane_toggle_button_visible: true,
        has_pane_title: true,
    }
}

#[test]
fn a_closed_compact_pane_shows_back_and_toggle() {
    let f = resolve_pane_chrome(left_compact());
    assert!(f.show_back && !f.show_close && f.show_toggle);
    assert!(f.closed_compact && !f.overlay);
    assert!(f.back_row_shown && !f.back_button_reserved);
    assert!(!f.toggle_uses_open_length);
    assert!(f.header_row_shown && !f.header_close_shown);
}

#[test]
fn an_open_minimal_pane_replaces_back_with_close() {
    let f = resolve_pane_chrome(PaneChromeInput { display_minimal: true, open: true, ..left_compact() });
    assert!(!f.show_back && f.show_close);
    assert!(f.overlay && f.back_button_reserved && f.header_close_shown);
    assert!(!f.closed_compact);
    assert!(f.toggle_uses_open_length);
}

#[test]
fn a_top_pane_hosts_the_title_itself() {
    let f = resolve_pane_chrome(PaneChromeInput {
        pane_mode_top: true,
        is_pane_toggle_button_visible: false,
        ..left_compact()
    });
    assert!(!f.show_toggle && !f.show_title_holder && f.show_top_title && !f.overlay);
    let g = resolve_pane_chrome(PaneChromeInput { is_pane_toggle_button_visible: false, ..left_compact() });
    assert!(g.show_title_holder && !g.show_top_title);
}

#[test]
fn item_layouts_by_position() {
    let compact = item_layout(ItemPosition::Left, true, true, true, true, true, CommonState::Normal);
    assert!(compact.compact && !compact.show_chevron);
    assert_eq!(compact.content_margin, ContentMargin::Compact);
    assert_eq!(compact.icon_slot, IconSlot::CompactPane);
    let nested = item_layout(ItemPosition::Left, true, false, true, true, false, CommonState::Normal);
    assert!(!nested.compact && nested.show_chevron);
    assert_eq!(nested.icon_slot, IconSlot::NoIcon);
    assert!(nested.has_icon_cell);
    let top = item_layout(ItemPosition::TopPrimary, true, true, false, false, true, CommonState::Disabled);
    assert!(top.top && !top.compact);
    assert_eq!(top.icon_slot, IconSlot::TopIconOnly);
    assert_eq!(top.colors_state, CommonState::Normal);
    assert!(top.top_disabled_foreground);
    let overflow = item_layout(ItemPosition::TopOverflow, false, true, false, true, false, CommonState::Pressed);
    assert!(overflow.overflow && overflow.icon_align_right && !overflow.has_icon_cell);
    assert_eq!(overflow.content_margin, ContentMargin::OverflowNoIcon);
    assert_eq!(overflow.colors_state, CommonState::Pressed);
    let footer = item_layout(ItemPosition::TopFooter, false, true, false, true, true, CommonState::Normal);
    assert_eq!(footer.icon_slot, IconSlot::TopBesideContent);
    assert_eq!(footer.content_margin, ContentMargin::Top);
}

#[test]
fn partition_projections_keep_source_order() {
    let mut p = NavPartition::new(5);
    assert_eq!(p.primary_items(), vec![0, 1, 2, 3, 4]);
    assert!(p.overflow_items().is_empty());
    p.move_items(&vec![3, 2], false);
    assert_eq!(p.primary_items(), vec![0, 1, 4]);
    assert_eq!(p.overflow_items(), vec![2, 3]);
    p.move_items(&vec![3], true);
    assert_eq!(p.primary_items(), vec![0, 1, 3, 4]);
    p.move_all_items_to_primary_list();
    assert_eq!(p.primary_items(), vec![0, 1, 2, 3, 4]);
    assert_eq!(NavPartition::new(0).primary_items(), Vec::<usize>::new());
}

#[test]
fn at_least_one_primary_item_is_kept() {
    let mut removed = vec![0, 1, 2];
    keep_at_least_one(&mut removed, 3, true);
    assert_eq!(removed, vec![1, 2]);
    let mut removed = vec![4, 3];
    keep_at_least_one(&mut removed, 2, false);
    assert_eq!(removed, vec![4]);
    let mut removed = vec![4, 3];
    keep_at_least_one(&mut removed, 3, false);
    assert_eq!(removed, vec![4, 3]);
    let mut removed: Vec<usize> = Vec::new();
    keep_at_least_one(&mut removed, 0, true);
    assert!(removed.is_empty());
}

#[test]
fn a_new_source_keeps_the_widths_of_known_items() {
    assert!(same_ids(&ids(&["a", "b"]), &ids(&["a", "b"])));
    assert!(!same_ids(&ids(&["a", "b"]), &ids(&["b", "a"])));
    assert!(!same_ids(&ids(&["a"]), &ids(&["a", "b"])));
    assert_eq!(carried_items(&ids(&["a", "b", "c"]), &ids(&["c", "x", "a"])), vec![Some(2), None, Some(0)]);
}
