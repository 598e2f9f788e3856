//! Control behavior for a desktop widget kit: placement sides, grid cell
//! classification, pane visual states, tab strip policies and input state machines.

pub mod keys;
pub mod placement;
pub mod grid;
pub mod split_view;
pub mod tab_strip;
pub mod menu;
pub mod buttons;
pub mod slider;
pub mod navigation;
pub mod status;
pub mod tool_tip;
pub mod text_edit_menu;
pub mod tab_header;
pub mod tool_tip_service;
