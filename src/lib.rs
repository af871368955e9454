//! Framework-agnostic core of a small UI widget set: style lookups, the
//! render decisions of each widget and the open/close lifecycle of overlays.
pub mod accordion;
pub mod badge;
pub mod button;
pub mod card;
pub mod classes;
pub mod dispatcher;
pub mod dropdown;
pub mod input;
pub mod loading;
pub mod modal;
pub mod overlay;
pub mod select;
pub mod stats_card;
pub mod table;
pub mod tabs;
pub mod toast;
pub mod tooltip;
