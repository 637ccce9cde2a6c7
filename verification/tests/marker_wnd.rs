use win_gnome::error::OsError;
use win_gnome::marker_wnd::{
    CreateStep, FontSpec, LoopStep, MarkerWnd, MessageRequest, PaintStep, WindowProcedure, WndProcAction,
};
use win_gnome::win32::{
    COLOR_WINDOW, HWND_TOPMOST, LWA_COLORKEY, WM_CLOSE, WM_DESTROY, WM_ERASEBKGND, WM_HOTKEY,
    WM_PAINT,
};

#[test]
fn class_name_is_nul_terminated_wide_marker_wnd() {
    let expected: Vec<u16> = "MarkerWnd\0".encode_utf16().collect();
    assert_eq!(MarkerWnd::class_name(), expected);
    assert_eq!(MarkerWnd::class_name(), vec![77, 97, 114, 107, 101, 114, 87, 110, 100, 0]);
}

#[test]
fn creation_steps_in_order() {
    assert_eq!(
        MarkerWnd::creation_steps(10, -20, 300, 40),
        vec![
            CreateStep::ModuleHandle { module_name: 0 },
            CreateStep::RegisterClass {
                style: 0x0023,
                procedure: WindowProcedure::Marker,
                class_extra: 0,
                window_extra: 0,
                icon: 0,
                cursor: 0,
                background: 0,
                menu_name: 0,
            },
            CreateStep::CreateWindow {
                ex_style: 0x0008_00A0,
                window_name: 0,
                style: 0x9000_0000,
                x: 10,
                y: -20,
                width: 300,
                height: 40,
                parent: 0,
                menu: 0,
                create_param: 0,
            },
            CreateStep::SetPosition { insert_after: HWND_TOPMOST, x: 0, y: 0, cx: 0, cy: 0, flags: 0x0003 },
            CreateStep::SetLayered { key_color_index: COLOR_WINDOW, alpha: 10, flags: LWA_COLORKEY },
        ]
    );
    assert_eq!(HWND_TOPMOST, -1);
}

#[test]
fn created_null_handle_is_the_os_error() {
    assert_eq!(MarkerWnd::created(0, 1407), Err(OsError { code: 1407 }));
}

#[test]
fn created_handle_is_kept() {
    assert_eq!(MarkerWnd::created(0x1234, 5), Ok(MarkerWnd { handle: 0x1234 }));
}

#[test]
fn window_procedure_destroy_posts_quit() {
    assert_eq!(MarkerWnd::window_procedure(WM_DESTROY, 9), WndProcAction::PostQuit { exit_code: 0 });
}

#[test]
fn window_procedure_paint() {
    assert_eq!(MarkerWnd::window_procedure(WM_PAINT, 0), WndProcAction::Paint);
}

#[test]
fn window_procedure_erase_uses_wparam_as_dc() {
    assert_eq!(
        MarkerWnd::window_procedure(WM_ERASEBKGND, 0xABCD),
        WndProcAction::EraseBackground {
            dc: 0xABCD,
            color_index: COLOR_WINDOW,
            alpha: 100,
            layered_flags: LWA_COLORKEY
        }
    );
}

#[test]
fn window_procedure_other_messages_go_to_default() {
    for msg in [0u32, 0x0001, WM_CLOSE, WM_HOTKEY, 0x0200, 0xFFFF] {
        assert_eq!(MarkerWnd::window_procedure(msg, 1), WndProcAction::Default);
    }
}

#[test]
fn procedure_result_zero_unless_default() {
    assert_eq!(MarkerWnd::procedure_result(WndProcAction::Paint, 42), 0);
    assert_eq!(MarkerWnd::procedure_result(WndProcAction::PostQuit { exit_code: 0 }, 42), 0);
    assert_eq!(MarkerWnd::procedure_result(WndProcAction::Default, 42), 42);
    assert_eq!(MarkerWnd::procedure_result(MarkerWnd::window_procedure(WM_ERASEBKGND, 3), -7), 0);
    assert_eq!(MarkerWnd::procedure_result(MarkerWnd::window_procedure(0x0200, 3), -7), -7);
}

#[test]
fn paint_steps_exact() {
    let font = FontSpec {
        height: 25,
        width: 0,
        escapement: 0,
        orientation: 0,
        weight: 100,
        italic: 0,
        underline: 0,
        strike_out: 0,
        char_set: 0,
        out_precision: 0,
        clip_precision: 0,
        quality: 0,
        pitch_and_family: 2,
    };
    assert_eq!(
        MarkerWnd::paint_steps(),
        vec![
            PaintStep::BeginPaint,
            PaintStep::FillUpdateRegion { color_index: 5 },
            PaintStep::SetTextColor { color: 0x0033_52FF },
            PaintStep::CreateFont { font },
            PaintStep::SelectFont,
            PaintStep::TextOut { x: 5, y: 5, length: 33 },
            PaintStep::DeleteFont,
            PaintStep::EndPaint,
        ]
    );
}

#[test]
fn paint_steps_ordered() {
    let steps = MarkerWnd::paint_steps();
    assert_eq!(steps.first(), Some(&PaintStep::BeginPaint));
    assert_eq!(steps.last(), Some(&PaintStep::EndPaint));
    let pos = |p: &dyn Fn(&PaintStep) -> bool| steps.iter().position(|s| p(s)).unwrap();
    let create = pos(&|s| matches!(s, PaintStep::CreateFont { .. }));
    let select = pos(&|s| *s == PaintStep::SelectFont);
    let text = pos(&|s| matches!(s, PaintStep::TextOut { .. }));
    let delete = pos(&|s| *s == PaintStep::DeleteFont);
    assert!(create < select && select < text && text < delete && delete < steps.len() - 1);
    assert_eq!(steps.iter().filter(|s| matches!(s, PaintStep::CreateFont { .. })).count(), 1);
    assert_eq!(steps.iter().filter(|s| **s == PaintStep::DeleteFont).count(), 1);
}

#[test]
fn marker_text_and_font_name() {
    assert_eq!(MarkerWnd::marker_text(), b" F      W        E       S     P ".to_vec());
    assert_eq!(MarkerWnd::font_face_name(), b"Consolas".to_vec());
}

#[test]
fn message_request_takes_every_message_of_the_window() {
    let w = MarkerWnd { handle: 0x42 };
    assert_eq!(MarkerWnd::message_request(&w), MessageRequest { window: 0x42, filter_min: 0, filter_max: 0 });
}

#[test]
fn loop_steps_no_message_stops() {
    assert_eq!(MarkerWnd::loop_steps(0, WM_HOTKEY), vec![LoopStep::Return(false)]);
    assert_eq!(MarkerWnd::loop_steps(-1, WM_CLOSE), vec![LoopStep::Return(false)]);
}

#[test]
fn loop_steps_hot_key_after_dispatch() {
    assert_eq!(
        MarkerWnd::loop_steps(1, WM_HOTKEY),
        vec![LoopStep::Translate, LoopStep::Dispatch, LoopStep::ReturnHotKey]
    );
}

#[test]
fn loop_steps_close_after_dispatch() {
    assert_eq!(
        MarkerWnd::loop_steps(1, WM_CLOSE),
        vec![LoopStep::Translate, LoopStep::Dispatch, LoopStep::ReturnClose]
    );
}

#[test]
fn loop_steps_other_message_continues() {
    assert_eq!(
        MarkerWnd::loop_steps(2, WM_PAINT),
        vec![LoopStep::Translate, LoopStep::Dispatch, LoopStep::Return(true)]
    );
    assert_eq!(
        MarkerWnd::loop_steps(1, 0x0200),
        vec![LoopStep::Translate, LoopStep::Dispatch, LoopStep::Return(true)]
    );
}
