use vstd::prelude::*;

use crate::error::ErrorCode;
use crate::win32::WH_MOUSE_LL;

verus! {

/// The context of one event delivered to the hook's callback: the hook, the
/// event, the window it concerns, the object and child ids, the thread that
/// raised it and its time.
#[derive(Debug, Clone, Copy, PartialEq, Eq, Structural)]
pub struct WinContext {
    pub hook: usize,
    pub event: u32,
    pub hwnd: usize,
    pub id_object: i32,
    pub id_child: i32,
    pub event_thread: u32,
    pub event_time: u32,
}

/// An event reported to the hook's callback.
#[derive(Debug, Clone, Copy, PartialEq, Eq, Structural)]
pub struct FgWinEvent(pub WinContext);

/// A registered hook (`HHOOK`).
#[derive(Debug, Clone, Copy, PartialEq, Eq, Structural)]
pub struct WinHook(pub usize);

/// The arguments of `SetWindowsHookExW` apart from the procedure (which is
/// the callback of the `CallFg` implementor): the hook type, the module that
/// holds the procedure, and the thread hooked (0: every thread of the
/// desktop).
#[derive(Debug, Clone, Copy, PartialEq, Eq, Structural)]
pub struct WindowsHookSpec {
    pub hook_type: i32,
    pub module: usize,
    pub thread_id: u32,
}

/// What the hook procedure answers once the callback has run.
#[derive(Debug, Clone, Copy, PartialEq, Eq, Structural)]
pub enum HookAnswer {
    /// Answer with this value.
    Own(usize),
    /// Answer with what `CallNextHookEx` returns for the same call.
    CallNext,
}

/// The context built for a call of the hook procedure: a low-level mouse
/// call names no window event, so every field is 0.
pub open spec fn spec_raw_context() -> WinContext {
    WinContext {
        hook: 0,
        event: 0,
        hwnd: 0,
        id_object: 0,
        id_child: 0,
        event_thread: 0,
        event_time: 0,
    }
}

impl FgWinEvent {
    /// The window that the event concerns.
    pub fn get_hwnd(&self) -> (hwnd: usize)
        ensures
            hwnd == self.0.hwnd,
    {
        self.0.hwnd
    }

    /// The event handed to the callback for one call of the low-level mouse
    /// hook procedure with `code`, `w_param` (the mouse message) and
    /// `l_param` (the `MSLLHOOKSTRUCT`): its context is all 0, whatever the
    /// arguments.
    #[allow(unused_variables)]
    pub fn from_raw(code: i32, w_param: usize, l_param: isize) -> (e: FgWinEvent)
        ensures
            e.0 == spec_raw_context(),
            e.0.hook == 0 && e.0.event == 0 && e.0.hwnd == 0,
            e.0.id_object == 0 && e.0.id_child == 0,
            e.0.event_thread == 0 && e.0.event_time == 0,
    {
        FgWinEvent(
            WinContext {
                hook: 0,
                event: 0,
                hwnd: 0,
                id_object: 0,
                id_child: 0,
                event_thread: 0,
                event_time: 0,
            },
        )
    }

    /// What the hook procedure answers after the callback: the event's own
    /// hook value when it is not 0, otherwise the next hook's answer.
    pub fn call_next_hook(&self) -> (a: HookAnswer)
        ensures
            self.0.hook != 0 ==> a == HookAnswer::Own(self.0.hook),
            self.0.hook == 0 ==> a == HookAnswer::CallNext,
    {
        if self.0.hook != 0 {
            HookAnswer::Own(self.0.hook)
        } else {
            HookAnswer::CallNext
        }
    }
}

/// The hook of `CallFg::register`: the low-level mouse hook (`WH_MOUSE_LL`),
/// with no module handle, on every thread (thread 0).
pub fn mouse_hook() -> (spec: WindowsHookSpec)
    ensures
        spec == (WindowsHookSpec { hook_type: WH_MOUSE_LL, module: 0, thread_id: 0 }),
{
    WindowsHookSpec { hook_type: WH_MOUSE_LL, module: 0, thread_id: 0 }
}

/// The outcome of `CallFg::register` once `SetWindowsHookExW` returned
/// `hook`: a null hook is a failure with the system's last error code, any
/// other value is the registered hook.
pub fn registered(hook: usize, last_error: u32) -> (r: Result<WinHook, ErrorCode>)
    ensures
        hook == 0 <==> r is Err,
        r matches Ok(h) ==> h.0 == hook,
        r matches Err(e) ==> e.code == last_error,
{
    if hook == 0 {
        Err(ErrorCode { code: last_error })
    } else {
        Ok(WinHook(hook))
    }
}

} // verus!
