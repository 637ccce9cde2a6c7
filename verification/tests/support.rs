use win_gnome::error::{ErrorCode, OsError};
use win_gnome::gdi::rgb;
use win_gnome::hook::{mouse_hook, registered, FgWinEvent, HookAnswer, WinContext, WindowsHookSpec, WinHook};
use win_gnome::label_wnd::LabelWnd;
use win_gnome::ui_automation::{Automation, UIAutomationFunc};
use win_gnome::wide::to_wide_null;

#[test]
fn rgb_packs_channels() {
    assert_eq!(rgb(255, 82, 51), 0x0033_52FF);
    assert_eq!(rgb(0, 0, 0), 0);
    assert_eq!(rgb(255, 255, 255), 0x00FF_FFFF);
    assert_eq!(rgb(1, 2, 3), 0x0003_0201);
}

#[test]
fn rgb_channels_read_back() {
    let c = rgb(12, 200, 77);
    assert_eq!((c & 0xff, (c >> 8) & 0xff, c >> 16), (12, 200, 77));
}

#[test]
fn wide_null_ascii() {
    assert_eq!(to_wide_null("ab"), vec![97, 98, 0]);
    assert_eq!(to_wide_null(""), vec![0]);
}

#[test]
fn wide_null_surrogate_pair_and_bmp() {
    assert_eq!(to_wide_null("a\u{1F600}\u{00E9}"), vec![97, 0xD83D, 0xDE00, 0x00E9, 0]);
}

#[test]
fn wide_null_only_terminator_is_zero() {
    let w = to_wide_null("MarkerWnd \u{10FFFF}");
    assert_eq!(w.iter().filter(|u| **u == 0).count(), 1);
    assert_eq!(*w.last().unwrap(), 0);
}

#[test]
fn label_title() {
    assert_eq!(LabelWnd::title(), "A fantastic window!");
}

#[test]
fn label_created() {
    assert_eq!(LabelWnd::created(0, 8), Err(OsError { code: 8 }));
    assert_eq!(LabelWnd::created(77, 8), Ok(LabelWnd { handle: 77 }));
}

#[test]
fn mouse_hook_parameters() {
    assert_eq!(mouse_hook(), WindowsHookSpec { hook_type: 14, module: 0, thread_id: 0 });
}

#[test]
fn raw_mouse_call_has_empty_context_and_calls_next() {
    let e = FgWinEvent::from_raw(0, 0x0201, 0x1234);
    assert_eq!(
        e.0,
        WinContext { hook: 0, event: 0, hwnd: 0, id_object: 0, id_child: 0, event_thread: 0, event_time: 0 }
    );
    assert_eq!(e.get_hwnd(), 0);
    assert_eq!(e.call_next_hook(), HookAnswer::CallNext);
}

#[test]
fn own_hook_value_is_the_answer() {
    let mut e = FgWinEvent::from_raw(0, 0, 0);
    e.0.hook = 9;
    assert_eq!(e.call_next_hook(), HookAnswer::Own(9));
}

#[test]
fn hook_registration_outcome() {
    assert_eq!(registered(0, 5), Err(ErrorCode { code: 5 }));
    assert_eq!(registered(0xBEEF, 5), Ok(WinHook(0xBEEF)));
}

#[test]
fn fg_event_hwnd() {
    let e = FgWinEvent(WinContext {
        hook: 1,
        event: 3,
        hwnd: 0x5566,
        id_object: 0,
        id_child: 0,
        event_thread: 9,
        event_time: 100,
    });
    assert_eq!(e.get_hwnd(), 0x5566);
}

#[test]
fn ui_automation_init() {
    assert!(UIAutomationFunc::init(&Automation { interface: 0x1000 }));
    assert!(!UIAutomationFunc::init(&Automation { interface: 0 }));
}
