use reveal_winui::keys::{Key, KeyPhase};
use reveal_winui::menu::{
    cycle_focus, invoke_plan, is_focusable, item_hover_plan, presenter_key_action, template_flags,
    CheckedChange, InputDevice, InputDeviceTracker, InvokePlan, ItemHoverPlan, MenuItemKind,
    MenuItemPress, MenuItemSummary, MenuKeyAction, MenuTemplateFlags, OpenSubmenuPlan, PointerKind,
    PointerPhase, PresenterKeyAction, SubmenuHost, MENU_SHOW_DELAY_MILLIS,
};

#[test]
fn narrow_menus_follow_the_last_input_device() {
    assert!(InputDevice::Mouse.is_narrow());
    assert!(InputDevice::Pen.is_narrow());
    assert!(InputDevice::Keyboard.is_narrow());
    assert!(!InputDevice::Touch.is_narrow());
    assert!(!InputDevice::Unobserved.is_narrow());
    assert_eq!(InputDevice::default(), InputDevice::Unobserved);
}

#[test]
fn pointer_kinds_map_to_devices() {
    assert_eq!(InputDevice::for_pointer(PointerKind::Touch), Some(InputDevice::Touch));
    assert_eq!(InputDevice::for_pointer(PointerKind::InvertedStylus), Some(InputDevice::Pen));
    assert_eq!(InputDevice::for_pointer(PointerKind::Trackpad), Some(InputDevice::Mouse));
    assert_eq!(InputDevice::for_pointer(PointerKind::Unknown), None);
}

#[test]
fn the_tracker_remembers_the_last_real_input() {
    let mut t = InputDeviceTracker::new();
    assert!(t.install());
    assert!(!t.install());
    t.observe_pointer(PointerPhase::Input, PointerKind::Touch);
    assert_eq!(t.last, InputDevice::Touch);
    t.observe_pointer(PointerPhase::AddedOrRemoved, PointerKind::Mouse);
    assert_eq!(t.last, InputDevice::Touch);
    t.observe_pointer(PointerPhase::Input, PointerKind::Unknown);
    assert_eq!(t.last, InputDevice::Touch);
    t.observe_key();
    assert_eq!(t.last, InputDevice::Keyboard);
    assert!(t.installed);
}

#[test]
fn separators_and_disabled_items_take_no_focus() {
    assert!(is_focusable(true, MenuItemKind::Item));
    assert!(!is_focusable(true, MenuItemKind::Separator));
    assert!(!is_focusable(false, MenuItemKind::SubItem));
}

#[test]
fn invoking_items() {
    assert_eq!(
        invoke_plan(true, MenuItemKind::Toggle { is_checked: true }, true, false),
        InvokePlan { checked_change: CheckedChange::SetToggle(false), open_submenu: false, click: true, dismiss: true }
    );
    assert_eq!(
        invoke_plan(true, MenuItemKind::Radio { is_checked: false }, false, true),
        InvokePlan { checked_change: CheckedChange::SelectRadio, open_submenu: false, click: false, dismiss: false }
    );
    assert_eq!(
        invoke_plan(true, MenuItemKind::Radio { is_checked: true }, true, false).checked_change,
        CheckedChange::Unchanged
    );
    assert_eq!(
        invoke_plan(true, MenuItemKind::SubItem, true, false),
        InvokePlan { checked_change: CheckedChange::Unchanged, open_submenu: true, click: false, dismiss: false }
    );
    let nothing =
        InvokePlan { checked_change: CheckedChange::Unchanged, open_submenu: false, click: false, dismiss: false };
    assert_eq!(invoke_plan(false, MenuItemKind::Item, true, false), nothing);
    assert_eq!(invoke_plan(true, MenuItemKind::Separator, true, false), nothing);
}

#[test]
fn a_key_press_and_release_invokes_once() {
    let mut p = MenuItemPress::new();
    assert_eq!(p.on_key(Key::Enter, KeyPhase::Down, true, false, false), MenuKeyAction::Handle);
    assert!(p.pressed && p.key_down);
    assert_eq!(p.on_key(Key::Enter, KeyPhase::Up, true, false, false), MenuKeyAction::Invoke);
    assert_eq!(p, MenuItemPress::new());
    assert_eq!(p.on_key(Key::Enter, KeyPhase::Up, true, false, false), MenuKeyAction::Handle);
}

#[test]
fn a_pointer_press_is_not_invoked_by_a_key_release() {
    let mut p = MenuItemPress::new();
    p.pressed = true;
    p.pointer_down = true;
    assert_eq!(p.on_key(Key::Space, KeyPhase::Up, true, false, false), MenuKeyAction::Handle);
    assert_eq!(p, MenuItemPress::new());
}

#[test]
fn menu_item_arrow_and_submenu_keys() {
    let mut p = MenuItemPress::new();
    assert_eq!(p.on_key(Key::ArrowDown, KeyPhase::Down, true, false, false), MenuKeyAction::CycleFocus { down: true });
    assert_eq!(p.on_key(Key::ArrowUp, KeyPhase::Repeat, true, true, false), MenuKeyAction::CycleFocus { down: false });
    assert_eq!(p.on_key(Key::ArrowRight, KeyPhase::Down, true, true, false), MenuKeyAction::OpenSubmenu);
    assert_eq!(p.on_key(Key::Enter, KeyPhase::Down, true, true, true), MenuKeyAction::Ignore);
    assert_eq!(p.on_key(Key::Enter, KeyPhase::Down, false, false, false), MenuKeyAction::Ignore);
    assert_eq!(p.on_key(Key::Escape, KeyPhase::Down, true, false, false), MenuKeyAction::Ignore);
    p.pressed = true;
    p.clear();
    assert_eq!(p, MenuItemPress::new());
}

#[test]
fn presenter_keys() {
    assert_eq!(presenter_key_action(Key::ArrowUp, KeyPhase::Down, false), PresenterKeyAction::CycleFocus { down: false });
    assert_eq!(presenter_key_action(Key::ArrowDown, KeyPhase::Repeat, false), PresenterKeyAction::CycleFocus { down: true });
    assert_eq!(presenter_key_action(Key::Tab, KeyPhase::Down, false), PresenterKeyAction::Handle);
    assert_eq!(presenter_key_action(Key::Escape, KeyPhase::Down, true), PresenterKeyAction::CloseSubmenu);
    assert_eq!(presenter_key_action(Key::ArrowLeft, KeyPhase::Down, false), PresenterKeyAction::Delegate);
    assert_eq!(presenter_key_action(Key::ArrowDown, KeyPhase::Up, true), PresenterKeyAction::Delegate);
}

#[test]
fn focus_cycles_through_menu_items() {
    assert_eq!(cycle_focus(None, 0, true), None);
    assert_eq!(cycle_focus(None, 4, true), Some(0));
    assert_eq!(cycle_focus(None, 4, false), Some(3));
    assert_eq!(cycle_focus(Some(3), 4, true), Some(0));
    assert_eq!(cycle_focus(Some(0), 4, false), Some(3));
}

#[test]
fn template_columns_follow_the_items() {
    let items = vec![
        MenuItemSummary { kind: MenuItemKind::Item, has_icon: false, has_accelerator_text: false },
        MenuItemSummary { kind: MenuItemKind::SubItem, has_icon: false, has_accelerator_text: true },
        MenuItemSummary { kind: MenuItemKind::Radio { is_checked: false }, has_icon: true, has_accelerator_text: false },
    ];
    assert_eq!(
        template_flags(&items, true),
        MenuTemplateFlags { narrow: true, has_checks: true, has_icons: true, has_accelerators: false }
    );
    let plain = vec![MenuItemSummary { kind: MenuItemKind::Item, has_icon: false, has_accelerator_text: true }];
    assert_eq!(
        template_flags(&plain, false),
        MenuTemplateFlags { narrow: false, has_checks: false, has_icons: false, has_accelerators: true }
    );
    assert_eq!(
        template_flags(&Vec::new(), false),
        MenuTemplateFlags { narrow: false, has_checks: false, has_icons: false, has_accelerators: false }
    );
}

#[test]
fn hovering_items_opens_or_closes_submenus() {
    assert_eq!(
        item_hover_plan(true, true, false),
        ItemHoverPlan { cancel_owner_close: true, restart_open_delay: true, delay_close_child: false }
    );
    assert_eq!(
        item_hover_plan(true, true, true),
        ItemHoverPlan { cancel_owner_close: true, restart_open_delay: false, delay_close_child: true }
    );
    assert_eq!(
        item_hover_plan(true, false, false),
        ItemHoverPlan { cancel_owner_close: true, restart_open_delay: false, delay_close_child: true }
    );
    assert_eq!(
        item_hover_plan(false, true, false),
        ItemHoverPlan { cancel_owner_close: false, restart_open_delay: false, delay_close_child: false }
    );
    assert_eq!(MENU_SHOW_DELAY_MILLIS, 400);
}

#[test]
fn a_menu_keeps_one_submenu_open() {
    let mut host = SubmenuHost::new();
    assert_eq!(host.open(2, true, true, false), OpenSubmenuPlan { show: true, close_peer: None });
    assert_eq!(host.sub_item, Some(2));
    assert_eq!(host.open(4, true, true, false), OpenSubmenuPlan { show: true, close_peer: Some(2) });
    host.closed(2);
    assert_eq!(host.sub_item, Some(4));
    assert_eq!(host.open(4, true, true, true), OpenSubmenuPlan { show: false, close_peer: None });
    assert_eq!(host.open(5, false, true, false), OpenSubmenuPlan { show: false, close_peer: None });
    assert_eq!(host.open(5, true, false, false), OpenSubmenuPlan { show: false, close_peer: None });
    assert_eq!(host.sub_item, Some(4));
    host.closed(4);
    assert_eq!(host.sub_item, None);
    host.open(1, true, true, false);
    host.prepare_close();
    assert_eq!(host.sub_item, None);
}
