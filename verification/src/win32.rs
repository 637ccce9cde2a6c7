use vstd::prelude::*;

verus! {

// Win32 message numbers (winuser.h).
/// The window is being destroyed.
pub const WM_DESTROY: u32 = 0x0002;
/// The window's client area must be painted.
pub const WM_PAINT: u32 = 0x000F;
/// The window is asked to close.
pub const WM_CLOSE: u32 = 0x0010;
/// The window background must be erased.
pub const WM_ERASEBKGND: u32 = 0x0014;
/// A registered hot key was pressed.
pub const WM_HOTKEY: u32 = 0x0312;

// Window class styles.
pub const CS_VREDRAW: u32 = 0x0001;
pub const CS_HREDRAW: u32 = 0x0002;
pub const CS_OWNDC: u32 = 0x0020;

// Window styles.
pub const WS_POPUP: u32 = 0x8000_0000;
pub const WS_VISIBLE: u32 = 0x1000_0000;

// Extended window styles.
pub const WS_EX_TRANSPARENT: u32 = 0x0000_0020;
pub const WS_EX_TOOLWINDOW: u32 = 0x0000_0080;
pub const WS_EX_LAYERED: u32 = 0x0008_0000;

// `SetWindowPos` flags and the "topmost" insertion handle.
pub const SWP_NOSIZE: u32 = 0x0001;
pub const SWP_NOMOVE: u32 = 0x0002;
/// `HWND_TOPMOST`, a pseudo window handle whose value is -1.
pub const HWND_TOPMOST: isize = -1;

// `SetLayeredWindowAttributes` flags.
pub const LWA_COLORKEY: u32 = 0x0000_0001;
pub const LWA_ALPHA: u32 = 0x0000_0002;

/// System colour index of the window background (`GetSysColor`).
pub const COLOR_WINDOW: i32 = 5;

// Font creation parameters (wingdi.h).
pub const ANSI_CHARSET: u32 = 0;
pub const VARIABLE_PITCH: u32 = 2;

/// Hook type of `SetWindowsHookExW`: the low-level mouse hook.
pub const WH_MOUSE_LL: i32 = 14;

} // verus!
