//! Core logic of a scalper trading terminal: panel identities, panel layout
//! state (order, visibility, widths, drag-and-drop, divider resizing), the
//! dashboard grid, the set of dashboards, the price axis follow mode,
//! hotkey decoding, settings encoding of panel identities and time formatting.

pub mod dashboard;
pub mod hotkeys;
pub mod layout;
pub mod message;
pub mod panel;
pub mod panel_map;
pub mod picker;
pub mod price_axis;
pub mod saved;
pub mod settings;
pub mod tape;
pub mod text;
pub mod workspace;
pub mod ws;
