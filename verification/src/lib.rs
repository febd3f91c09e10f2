//! Decision logic of a tray utility that shows the current keyboard-layout
//! flag next to the text caret and on the mouse cursor.
//!
//! The operating-system side (windows, GDI+, accessibility interfaces, the
//! tray icon) lives in the application crate; this library holds the text
//! encoding, the caret-probe dispatch, the geometry and the timer state
//! machines, each with a contract.

pub mod utf16;
pub mod caret;
pub mod geometry;
pub mod layout;
pub mod overlay;

pub use utf16::wide;
