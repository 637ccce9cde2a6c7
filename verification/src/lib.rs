//! Window-behaviour logic of a small Windows overlay tool: the marker
//! window's creation requests and window procedure, its message loop step, the label
//! window, the low-level mouse hook and the UI Automation entry point.
//! Every decision is made here on plain values; the caller performs the
//! Win32 calls that each decision names.

pub mod error;
pub mod gdi;
pub mod hook;
pub mod label_wnd;
pub mod marker_wnd;
pub mod ui_automation;
pub mod wide;
pub mod win32;
