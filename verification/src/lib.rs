//! Layout, hit-testing and status logic of a terminal dashboard: the header
//! bar with its menu headings, the drop-down main menu, the context menu,
//! the per-core CPU dialog, the help page navigation and the transient
//! status-line feedback.

pub mod geometry;
pub mod text;
pub mod header;
pub mod status;
pub mod main_menu;
pub mod context_menu;
pub mod cpu_cores;
pub mod app;
pub mod help;
