//! Verified component logic of a GPU user-interface toolkit: geometry, scrolling,
//! anchoring, keyboard-shortcut labels, text highlighting and the configuration
//! of the toolkit's widgets.
pub mod geometry;
pub mod scroll_handle;
pub mod text;
pub mod kbd;
pub mod label;
pub mod element;
pub mod theme;
pub mod button;
pub mod tooltip;
pub mod checkbox;
pub mod radio;
pub mod switch;
pub mod skeleton;
pub mod slider;
pub mod tag;
pub mod decimal;
pub mod alert;
pub mod avatar;
pub mod breadcrumb;
pub mod card;
pub mod deferred;
pub mod list;
pub mod list_state;
pub mod anchored;
pub mod auto_scroll;
pub mod scrollable_mask;
pub mod interaction;
pub mod interactivity;
pub mod style_state;
pub mod icon;
pub mod badge;
pub mod separator;
pub mod spinner;
pub mod button_icon;
pub mod accessibility;
pub mod dom;
