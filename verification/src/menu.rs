//! Menu flyout behavior: the input device that opened a menu and the padding it selects, which
//! items take focus, what invoking an item does, the press state an item keeps between key down
//! and key up, the presenter's arrow-key cycling, and the columns the item template reserves.

use vstd::prelude::*;
use crate::keys::{Key, KeyPhase};
use crate::tab_strip::{cycle_index, spec_cycle};

verus! {

/// The kind of pointer that produced an event.
#[derive(Clone, Copy, Debug, PartialEq, Eq, Structural)]
pub enum PointerKind {
    Touch,
    Mouse,
    Stylus,
    InvertedStylus,
    Trackpad,
    Unknown,
}

/// The input categories menu layout distinguishes.
#[derive(Clone, Copy, Debug, PartialEq, Eq, Structural)]
pub enum InputDevice {
    /// No user input has been observed yet.
    Unobserved,
    /// A mouse or trackpad pointer.
    Mouse,
    /// Direct touch input, which uses the larger padding.
    Touch,
    /// Stylus input, which uses narrow padding.
    Pen,
    /// Keyboard activation, which uses narrow padding.
    Keyboard,
}

impl Default for InputDevice {
    fn default() -> (r: InputDevice)
        ensures
            r == InputDevice::Unobserved,
    {
        InputDevice::Unobserved
    }
}

/// The device category a pointer kind belongs to; unknown pointers leave the history alone.
pub open spec fn spec_device_for_pointer(kind: PointerKind) -> Option<InputDevice> {
    match kind {
        PointerKind::Touch => Some(InputDevice::Touch),
        PointerKind::Stylus | PointerKind::InvertedStylus => Some(InputDevice::Pen),
        PointerKind::Mouse | PointerKind::Trackpad => Some(InputDevice::Mouse),
        PointerKind::Unknown => None,
    }
}

impl InputDevice {
    /// Whether the device selects the narrow item padding: mouse, pen and keyboard do.
    pub fn is_narrow(self) -> (r: bool)
        ensures
            r == (self == InputDevice::Mouse || self == InputDevice::Pen || self
                == InputDevice::Keyboard),
    {
        match self {
            InputDevice::Mouse | InputDevice::Pen | InputDevice::Keyboard => true,
            _ => false,
        }
    }

    /// The device category of a pointer kind.
    pub fn for_pointer(kind: PointerKind) -> (r: Option<InputDevice>)
        ensures
            r == spec_device_for_pointer(kind),
    {
        match kind {
            PointerKind::Touch => Some(InputDevice::Touch),
            PointerKind::Stylus | PointerKind::InvertedStylus => Some(InputDevice::Pen),
            PointerKind::Mouse | PointerKind::Trackpad => Some(InputDevice::Mouse),
            PointerKind::Unknown => None,
        }
    }
}

/// The kind of a pointer event as the input history sees it.
#[derive(Clone, Copy, Debug, PartialEq, Eq, Structural)]
pub enum PointerPhase {
    /// A pointer device was added or removed; not user input.
    AddedOrRemoved,
    /// Any other pointer event.
    Input,
}

/// Per-application input history, observed on the same routes focus handling uses.
#[derive(Clone, Copy, Debug, PartialEq, Eq, Structural)]
pub struct InputDeviceTracker {
    /// Device of the latest observed input.
    pub last: InputDevice,
    /// Whether the observers have been registered.
    pub installed: bool,
}

impl InputDeviceTracker {
    /// A tracker that has seen no input and registered no observers.
    pub fn new() -> (r: InputDeviceTracker)
        ensures
            r.last == InputDevice::Unobserved,
            !r.installed,
    {
        InputDeviceTracker { last: InputDevice::Unobserved, installed: false }
    }

    /// Marks the observers registered; returns whether they were registered by this call.
    pub fn install(&mut self) -> (r: bool)
        ensures
            r == !old(self).installed,
            final(self).installed,
            final(self).last == old(self).last,
    {
        if self.installed {
            false
        } else {
            self.installed = true;
            true
        }
    }

    /// Records a pointer event: device additions and removals and unknown pointers change
    /// nothing, any other event makes its device category the latest.
    pub fn observe_pointer(&mut self, phase: PointerPhase, kind: PointerKind)
        ensures
            final(self).installed == old(self).installed,
            final(self).last == (if phase == PointerPhase::AddedOrRemoved {
                old(self).last
            } else {
                match spec_device_for_pointer(kind) {
                    Some(d) => d,
                    None => old(self).last,
                }
            }),
    {
        if phase == PointerPhase::AddedOrRemoved {
            return ;
        }
        match InputDevice::for_pointer(kind) {
            Some(d) => self.last = d,
            None => {},
        }
    }

    /// Records a key event: the keyboard becomes the latest device.
    pub fn observe_key(&mut self)
        ensures
            final(self).installed == old(self).installed,
            final(self).last == InputDevice::Keyboard,
    {
        self.last = InputDevice::Keyboard;
    }
}

/// The kind of one menu item, with the checked value of the checkable kinds.
#[derive(Clone, Copy, Debug, PartialEq, Eq, Structural)]
pub enum MenuItemKind {
    /// An ordinary command item.
    Item,
    /// A toggle item with the owner's checked value.
    Toggle { is_checked: bool },
    /// A radio item with the owner's checked value.
    Radio { is_checked: bool },
    /// An item opening a cascading submenu.
    SubItem,
    /// A separator, which takes neither focus nor activation.
    Separator,
}

/// Disabled items and separators do not take focus.
pub fn is_focusable(is_enabled: bool, kind: MenuItemKind) -> (r: bool)
    ensures
        r == (is_enabled && kind != MenuItemKind::Separator),
{
    is_enabled && match kind {
        MenuItemKind::Separator => false,
        _ => true,
    }
}

/// The change an invocation asks the owner to make to a checked value.
#[derive(Clone, Copy, Debug, PartialEq, Eq, Structural)]
pub enum CheckedChange {
    /// Nothing to change.
    Unchanged,
    /// A toggle item asks for this checked value.
    SetToggle(bool),
    /// An unchecked radio item asks to be selected.
    SelectRadio,
}

/// What invoking an item does, in order: the checked-value request, then opening a submenu or
/// the Click callback, then closing the root menu.
#[derive(Clone, Copy, Debug, PartialEq, Eq, Structural)]
pub struct InvokePlan {
    pub checked_change: CheckedChange,
    pub open_submenu: bool,
    pub click: bool,
    pub dismiss: bool,
}

/// A disabled item does nothing; a submenu item opens its submenu; a separator does nothing;
/// every other item first asks for its checked change (a toggle the opposite value, an
/// unchecked radio its selection), then calls Click when it has one and closes the root menu
/// unless dismissal is prevented.
pub open spec fn spec_invoke_plan(
    is_enabled: bool,
    kind: MenuItemKind,
    has_click: bool,
    prevent_dismiss: bool,
) -> InvokePlan {
    let nothing = InvokePlan {
        checked_change: CheckedChange::Unchanged,
        open_submenu: false,
        click: false,
        dismiss: false,
    };
    if !is_enabled {
        nothing
    } else {
        match kind {
            MenuItemKind::SubItem => InvokePlan { open_submenu: true, ..nothing },
            MenuItemKind::Separator => nothing,
            _ => InvokePlan {
                checked_change: match kind {
                    MenuItemKind::Toggle { is_checked } => CheckedChange::SetToggle(!is_checked),
                    MenuItemKind::Radio { is_checked } => if is_checked {
                        CheckedChange::Unchanged
                    } else {
                        CheckedChange::SelectRadio
                    },
                    _ => CheckedChange::Unchanged,
                },
                open_submenu: false,
                click: has_click,
                dismiss: !prevent_dismiss,
            },
        }
    }
}

/// Decides what invoking an item does.
pub fn invoke_plan(is_enabled: bool, kind: MenuItemKind, has_click: bool, prevent_dismiss: bool) -> (r:
    InvokePlan)
    ensures
        r == spec_invoke_plan(is_enabled, kind, has_click, prevent_dismiss),
{
    let nothing = InvokePlan {
        checked_change: CheckedChange::Unchanged,
        open_submenu: false,
        click: false,
        dismiss: false,
    };
    if !is_enabled {
        return nothing;
    }
    let checked_change = match kind {
        MenuItemKind::Toggle { is_checked } => CheckedChange::SetToggle(!is_checked),
        MenuItemKind::Radio { is_checked } => if is_checked {
            CheckedChange::Unchanged
        } else {
            CheckedChange::SelectRadio
        },
        MenuItemKind::SubItem => {
            return InvokePlan { open_submenu: true, ..nothing };
        },
        MenuItemKind::Separator => {
            return nothing;
        },
        MenuItemKind::Item => CheckedChange::Unchanged,
    };
    InvokePlan { checked_change, open_submenu: false, click: has_click, dismiss: !prevent_dismiss }
}

/// What a key event on a menu item asks for.
#[derive(Clone, Copy, Debug, PartialEq, Eq, Structural)]
pub enum MenuKeyAction {
    /// Not handled by the item.
    Ignore,
    /// Handled without further effect.
    Handle,
    /// Handled; focus moves to the next (down) or previous focusable item.
    CycleFocus { down: bool },
    /// Handled; the item's submenu opens.
    OpenSubmenu,
    /// Handled; the item is invoked.
    Invoke,
}

/// The press flags an item keeps between key down and key up.
#[derive(Clone, Copy, Debug, PartialEq, Eq, Structural)]
pub struct MenuItemPress {
    pub pressed: bool,
    pub pointer_down: bool,
    pub key_down: bool,
    pub gamepad_down: bool,
    pub should_perform_actions: bool,
}

/// No press in progress.
pub open spec fn spec_released() -> MenuItemPress {
    MenuItemPress {
        pressed: false,
        pointer_down: false,
        key_down: false,
        gamepad_down: false,
        should_perform_actions: false,
    }
}

/// Space, Enter and numpad Enter activate an item.
pub open spec fn spec_is_activation(key: Key) -> bool {
    key == Key::Space || key == Key::Enter || key == Key::NumpadEnter
}

/// The key policy of an item. Unfocusable items ignore keys. On key down or repeat, the
/// vertical arrows clear the press and move focus; a submenu item opens its submenu on an
/// activation key or Right without Alt; another item restarts its press on an activation key or
/// gamepad A. On key up, an activation key or gamepad A on a command item ends the press and
/// invokes the item when the press came from the keyboard; every key up is handled.
pub open spec fn spec_on_key(
    press: MenuItemPress,
    key: Key,
    phase: KeyPhase,
    focusable: bool,
    submenu: bool,
    alt: bool,
) -> (MenuItemPress, MenuKeyAction) {
    let activation = spec_is_activation(key);
    let gamepad = key == Key::GamepadA;
    if !focusable {
        (press, MenuKeyAction::Ignore)
    } else if phase != KeyPhase::Up {
        if key == Key::ArrowUp || key == Key::ArrowDown {
            (spec_released(), MenuKeyAction::CycleFocus { down: key == Key::ArrowDown })
        } else if submenu {
            if (activation || key == Key::ArrowRight) && !alt {
                (press, MenuKeyAction::OpenSubmenu)
            } else {
                (press, MenuKeyAction::Ignore)
            }
        } else {
            let base = if press.key_down || press.gamepad_down {
                spec_released()
            } else {
                press
            };
            if activation || gamepad {
                (
                    MenuItemPress {
                        pressed: true,
                        key_down: activation,
                        gamepad_down: gamepad,
                        ..base
                    },
                    MenuKeyAction::Handle,
                )
            } else {
                (base, MenuKeyAction::Ignore)
            }
        }
    } else if !submenu && (activation || gamepad) {
        (
            spec_released(),
            if press.pressed && !press.pointer_down {
                MenuKeyAction::Invoke
            } else {
                MenuKeyAction::Handle
            },
        )
    } else {
        (press, MenuKeyAction::Handle)
    }
}

impl MenuItemPress {
    /// An item with no press in progress.
    pub fn new() -> (r: MenuItemPress)
        ensures
            r == spec_released(),
    {
        MenuItemPress {
            pressed: false,
            pointer_down: false,
            key_down: false,
            gamepad_down: false,
            should_perform_actions: false,
        }
    }

    /// Clears every press flag, as pointer exit, focus loss or disabling do.
    pub fn clear(&mut self)
        ensures
            *final(self) == spec_released(),
    {
        self.pressed = false;
        self.pointer_down = false;
        self.key_down = false;
        self.gamepad_down = false;
        self.should_perform_actions = false;
    }

    /// Applies a key event to the press state and says what it asks for.
    pub fn on_key(&mut self, key: Key, phase: KeyPhase, focusable: bool, submenu: bool, alt: bool) -> (r:
        MenuKeyAction)
        ensures
            (*final(self), r) == spec_on_key(*old(self), key, phase, focusable, submenu, alt),
    {
        if !focusable {
            return MenuKeyAction::Ignore;
        }
        let activation = match key {
            Key::Space | Key::Enter | Key::NumpadEnter => true,
            _ => false,
        };
        let gamepad = key == Key::GamepadA;
        if phase != KeyPhase::Up {
            if key == Key::ArrowUp || key == Key::ArrowDown {
                self.clear();
                return MenuKeyAction::CycleFocus { down: key == Key::ArrowDown };
            }
            if submenu {
                if (activation || key == Key::ArrowRight) && !alt {
                    return MenuKeyAction::OpenSubmenu;
                }
            } else {
                if self.key_down || self.gamepad_down {
                    self.clear();
                }
                if activation || gamepad {
                    self.pressed = true;
                    self.key_down = activation;
                    self.gamepad_down = gamepad;
                    return MenuKeyAction::Handle;
                }
            }
            MenuKeyAction::Ignore
        } else {
            if !submenu && (activation || gamepad) {
                let invoke = self.pressed && !self.pointer_down;
                self.clear();
                if invoke {
                    return MenuKeyAction::Invoke;
                }
            }
            MenuKeyAction::Handle
        }
    }
}

/// On a focusable command item, pressing and then releasing an activation key or gamepad A
/// invokes the item exactly on the release, from any state without a pointer press, and leaves
/// no press behind; pressing one key and releasing another activation key also invokes it.
pub proof fn lemma_key_press_then_release_invokes(
    start: MenuItemPress,
    down_key: Key,
    up_key: Key,
)
    requires
        !start.pointer_down,
        spec_is_activation(down_key) || down_key == Key::GamepadA,
        spec_is_activation(up_key) || up_key == Key::GamepadA,
    ensures
        spec_on_key(start, down_key, KeyPhase::Down, true, false, false).1 == MenuKeyAction::Handle,
        ({
            let pressed = spec_on_key(start, down_key, KeyPhase::Down, true, false, false).0;
            spec_on_key(pressed, up_key, KeyPhase::Up, true, false, false) == (
                spec_released(),
                MenuKeyAction::Invoke,
            )
        }),
{
}

/// An item that cannot take focus ignores every key and keeps its press state.
pub proof fn lemma_unfocusable_item_ignores_keys(
    press: MenuItemPress,
    key: Key,
    phase: KeyPhase,
    submenu: bool,
    alt: bool,
)
    ensures
        spec_on_key(press, key, phase, false, submenu, alt) == (press, MenuKeyAction::Ignore),
{
}

/// What a key event on the presenter asks for.
#[derive(Clone, Copy, Debug, PartialEq, Eq, Structural)]
pub enum PresenterKeyAction {
    /// Not handled here; the owning item's key handling comes next.
    Delegate,
    /// Handled without effect.
    Handle,
    /// Handled; focus cycles down or up.
    CycleFocus { down: bool },
    /// Handled; this submenu closes and focus returns to its owner item.
    CloseSubmenu,
}

/// The presenter consumes Tab, cycles with the vertical arrows, and closes a submenu with Left
/// or Escape; everything else, and every key release, goes on to the owner.
pub open spec fn spec_presenter_key_action(key: Key, phase: KeyPhase, is_submenu: bool) -> PresenterKeyAction {
    if phase == KeyPhase::Up {
        PresenterKeyAction::Delegate
    } else {
        match key {
            Key::ArrowUp => PresenterKeyAction::CycleFocus { down: false },
            Key::ArrowDown => PresenterKeyAction::CycleFocus { down: true },
            Key::Tab => PresenterKeyAction::Handle,
            Key::ArrowLeft | Key::Escape => if is_submenu {
                PresenterKeyAction::CloseSubmenu
            } else {
                PresenterKeyAction::Delegate
            },
            _ => PresenterKeyAction::Delegate,
        }
    }
}

/// Decides what a key event on the presenter asks for.
pub fn presenter_key_action(key: Key, phase: KeyPhase, is_submenu: bool) -> (r: PresenterKeyAction)
    ensures
        r == spec_presenter_key_action(key, phase, is_submenu),
{
    if phase == KeyPhase::Up {
        return PresenterKeyAction::Delegate;
    }
    match key {
        Key::ArrowUp => PresenterKeyAction::CycleFocus { down: false },
        Key::ArrowDown => PresenterKeyAction::CycleFocus { down: true },
        Key::Tab => PresenterKeyAction::Handle,
        Key::ArrowLeft | Key::Escape => if is_submenu {
            PresenterKeyAction::CloseSubmenu
        } else {
            PresenterKeyAction::Delegate
        },
        _ => PresenterKeyAction::Delegate,
    }
}

/// The item keyboard focus cycles to among `count` focusable items: the next (down) or
/// previous one with wraparound, or the first (down) or last when none has focus; no item when
/// none can take focus.
pub fn cycle_focus(focused: Option<usize>, count: usize, down: bool) -> (r: Option<usize>)
    requires
        focused matches Some(i) ==> i < count,
    ensures
        count == 0 ==> r is None,
        count > 0 ==> r == Some(spec_cycle(focused, count as int, down) as usize),
        r matches Some(i) ==> i < count,
{
    if count == 0 {
        None
    } else {
        Some(cycle_index(focused, count, down))
    }
}

/// The parts of one item that decide the template's shared columns.
#[derive(Clone, Copy, Debug, PartialEq, Eq, Structural)]
pub struct MenuItemSummary {
    pub kind: MenuItemKind,
    pub has_icon: bool,
    pub has_accelerator_text: bool,
}

/// The columns every item of a menu reserves.
#[derive(Clone, Copy, Debug, PartialEq, Eq, Structural)]
pub struct MenuTemplateFlags {
    pub narrow: bool,
    pub has_checks: bool,
    pub has_icons: bool,
    pub has_accelerators: bool,
}

/// Whether an item kind shows a check mark.
pub open spec fn spec_is_checkable(kind: MenuItemKind) -> bool {
    kind matches MenuItemKind::Toggle { .. } || kind matches MenuItemKind::Radio { .. }
}

/// Whether an item kind shows an accelerator column.
pub open spec fn spec_has_accelerator_column(item: MenuItemSummary) -> bool {
    item.has_accelerator_text && item.kind != MenuItemKind::SubItem && item.kind
        != MenuItemKind::Separator
}

/// A menu reserves a check column when any item is checkable, an icon column when any item
/// has an icon, and an accelerator column when any item other than a submenu item or separator
/// has accelerator text.
pub fn template_flags(items: &Vec<MenuItemSummary>, narrow: bool) -> (r: MenuTemplateFlags)
    ensures
        r.narrow == narrow,
        r.has_checks == exists|i: int| 0 <= i < items.len() && spec_is_checkable(items[i].kind),
        r.has_icons == exists|i: int| 0 <= i < items.len() && items[i].has_icon,
        r.has_accelerators == exists|i: int|
            0 <= i < items.len() && spec_has_accelerator_column(items[i]),
{
    let mut has_checks = false;
    let mut has_icons = false;
    let mut has_accelerators = false;
    let mut i: usize = 0;
    while i < items.len()
        invariant
            i <= items.len(),
            has_checks == exists|j: int| 0 <= j < i && spec_is_checkable(items[j].kind),
            has_icons == exists|j: int| 0 <= j < i && items[j].has_icon,
            has_accelerators == exists|j: int|
                0 <= j < i && spec_has_accelerator_column(items[j]),
        decreases items.len() - i,
    {
        let item = items[i];
        match item.kind {
            MenuItemKind::Toggle { .. } | MenuItemKind::Radio { .. } => has_checks = true,
            _ => {},
        }
        if item.has_icon {
            has_icons = true;
        }
        let skipped = match item.kind {
            MenuItemKind::SubItem | MenuItemKind::Separator => true,
            _ => false,
        };
        if !skipped && item.has_accelerator_text {
            has_accelerators = true;
        }
        i += 1;
    }
    MenuTemplateFlags { narrow, has_checks, has_icons, has_accelerators }
}


/// How long an item waits before opening its submenu, or before closing it after the pointer
/// left, in milliseconds.
pub const MENU_SHOW_DELAY_MILLIS: u64 = 400;

/// What the pointer entering an item asks for.
#[derive(Clone, Copy, Debug, PartialEq, Eq, Structural)]
pub struct ItemHoverPlan {
    /// The item that owns this menu stops its pending close.
    pub cancel_owner_close: bool,
    /// The item stops its own pending close and starts its opening delay again.
    pub restart_open_delay: bool,
    /// The submenu open from this menu starts its closing delay.
    pub delay_close_child: bool,
}

/// A focusable item keeps its owner's submenu open; an item with a submenu entered by a
/// non-touch pointer starts its opening delay, and any other item starts closing the submenu
/// open from its menu. An item that cannot take focus ignores the pointer.
pub open spec fn spec_item_hover_plan(focusable: bool, has_submenu: bool, touch: bool) -> ItemHoverPlan {
    if !focusable {
        ItemHoverPlan { cancel_owner_close: false, restart_open_delay: false, delay_close_child: false }
    } else if has_submenu && !touch {
        ItemHoverPlan { cancel_owner_close: true, restart_open_delay: true, delay_close_child: false }
    } else {
        ItemHoverPlan { cancel_owner_close: true, restart_open_delay: false, delay_close_child: true }
    }
}

/// Decides what the pointer entering an item asks for.
pub fn item_hover_plan(focusable: bool, has_submenu: bool, touch: bool) -> (r: ItemHoverPlan)
    ensures
        r == spec_item_hover_plan(focusable, has_submenu, touch),
{
    if !focusable {
        ItemHoverPlan { cancel_owner_close: false, restart_open_delay: false, delay_close_child: false }
    } else if has_submenu && !touch {
        ItemHoverPlan { cancel_owner_close: true, restart_open_delay: true, delay_close_child: false }
    } else {
        ItemHoverPlan { cancel_owner_close: true, restart_open_delay: false, delay_close_child: true }
    }
}

/// What opening an item's submenu does.
#[derive(Clone, Copy, Debug, PartialEq, Eq, Structural)]
pub struct OpenSubmenuPlan {
    /// The submenu is shown at the item.
    pub show: bool,
    /// The peer item whose submenu closes first.
    pub close_peer: Option<usize>,
}

/// The item of a menu whose submenu is open, if any: a menu shows at most one child menu.
#[derive(Clone, Copy, Debug, PartialEq, Eq, Structural)]
pub struct SubmenuHost {
    pub sub_item: Option<usize>,
}

/// Opening the submenu of `item` needs a focusable item with a submenu that is not yet open; it
/// then closes the peer whose submenu is open, if that is another item, and records `item`.
pub open spec fn spec_open_submenu(
    host: SubmenuHost,
    item: usize,
    focusable: bool,
    has_submenu: bool,
    already_open: bool,
) -> (SubmenuHost, OpenSubmenuPlan) {
    if !focusable || !has_submenu || already_open {
        (host, OpenSubmenuPlan { show: false, close_peer: None })
    } else {
        let peer = match host.sub_item {
            Some(p) => if p != item {
                Some(p)
            } else {
                None
            },
            None => None,
        };
        (SubmenuHost { sub_item: Some(item) }, OpenSubmenuPlan { show: true, close_peer: peer })
    }
}

/// Closing the submenu of `item` forgets it when it is the open one.
pub open spec fn spec_submenu_closed(host: SubmenuHost, item: usize) -> SubmenuHost {
    if host.sub_item == Some(item) {
        SubmenuHost { sub_item: None }
    } else {
        host
    }
}

impl SubmenuHost {
    /// A menu with no submenu open.
    pub fn new() -> (r: SubmenuHost)
        ensures
            r.sub_item is None,
    {
        SubmenuHost { sub_item: None }
    }

    /// Opens the submenu of `item` when it can be opened.
    pub fn open(&mut self, item: usize, focusable: bool, has_submenu: bool, already_open: bool) -> (r:
        OpenSubmenuPlan)
        ensures
            (*final(self), r) == spec_open_submenu(*old(self), item, focusable, has_submenu, already_open),
    {
        if !focusable || !has_submenu || already_open {
            return OpenSubmenuPlan { show: false, close_peer: None };
        }
        let peer = match self.sub_item {
            Some(p) => if p != item {
                Some(p)
            } else {
                None
            },
            None => None,
        };
        self.sub_item = Some(item);
        OpenSubmenuPlan { show: true, close_peer: peer }
    }

    /// Records that the submenu of `item` closed.
    pub fn closed(&mut self, item: usize)
        ensures
            *final(self) == spec_submenu_closed(*old(self), item),
    {
        let open = match self.sub_item {
            Some(p) => p == item,
            None => false,
        };
        if open {
            self.sub_item = None;
        }
    }

    /// The menu itself closes: no submenu stays recorded.
    pub fn prepare_close(&mut self)
        ensures
            final(self).sub_item is None,
    {
        self.sub_item = None;
    }
}

/// Opening a submenu makes its item the one open child, closing any other open child first;
/// closing that peer afterwards leaves the new child recorded, and closing the child itself
/// forgets it.
pub proof fn lemma_one_submenu_at_a_time(host: SubmenuHost, item: usize)
    ensures
        ({
            let (opened, plan) = spec_open_submenu(host, item, true, true, false);
            &&& plan.show
            &&& opened.sub_item == Some(item)
            &&& (plan.close_peer matches Some(p) ==> p != item && host.sub_item == Some(p))
            &&& (host.sub_item is Some && host.sub_item != Some(item) ==> plan.close_peer
                == host.sub_item)
            &&& (plan.close_peer matches Some(p) ==> spec_submenu_closed(opened, p) == opened)
            &&& spec_submenu_closed(opened, item).sub_item is None
        }),
{
}


/// In a submenu, Left and Escape going down or repeating close it and return focus to its
/// owner; in a menu that is not a submenu no key closes anything. Up and Down move focus in
/// opposite directions, and a key release is always left to the owner.
pub proof fn lemma_presenter_keys(key: Key, phase: KeyPhase, is_submenu: bool)
    ensures
        phase != KeyPhase::Up ==> spec_presenter_key_action(Key::ArrowLeft, phase, true)
            == PresenterKeyAction::CloseSubmenu && spec_presenter_key_action(Key::Escape, phase, true)
            == PresenterKeyAction::CloseSubmenu,
        spec_presenter_key_action(Key::ArrowLeft, phase, is_submenu) == spec_presenter_key_action(
            Key::Escape,
            phase,
            is_submenu,
        ),
        spec_presenter_key_action(key, phase, false) != PresenterKeyAction::CloseSubmenu,
        phase != KeyPhase::Up ==> spec_presenter_key_action(Key::ArrowUp, phase, is_submenu)
            == (PresenterKeyAction::CycleFocus { down: false }) && spec_presenter_key_action(
            Key::ArrowDown,
            phase,
            is_submenu,
        ) == (PresenterKeyAction::CycleFocus { down: true }),
        spec_presenter_key_action(key, KeyPhase::Up, is_submenu) == PresenterKeyAction::Delegate,
{
}

} // verus!
