use vstd::prelude::*;

use crate::error::OsError;
use crate::gdi::{colorref, rgb};
use crate::wide::{to_wide_null, utf16};
use crate::win32::{
    ANSI_CHARSET, COLOR_WINDOW, CS_HREDRAW, CS_OWNDC, CS_VREDRAW, HWND_TOPMOST, LWA_COLORKEY,
    SWP_NOMOVE, SWP_NOSIZE, VARIABLE_PITCH, WM_CLOSE, WM_DESTROY, WM_ERASEBKGND, WM_HOTKEY,
    WM_PAINT, WS_EX_LAYERED, WS_EX_TOOLWINDOW, WS_EX_TRANSPARENT, WS_POPUP, WS_VISIBLE,
};

verus! {

/// The marker overlay window: a transparent, topmost, click-through popup
/// that shows the row of markers. `handle` is the window's `HWND`.
#[derive(Debug, Clone, Copy, PartialEq, Eq, Structural)]
pub struct MarkerWnd {
    pub handle: usize,
}

/// The window procedure a class is registered with.
#[derive(Debug, Clone, Copy, PartialEq, Eq, Structural)]
pub enum WindowProcedure {
    /// The marker window's own procedure, which carries out
    /// `MarkerWnd::window_procedure`.
    Marker,
}

/// One system request of `create_window`, in the order made. Every
/// `usize` argument is a handle or pointer, 0 standing for null.
#[derive(Debug, Clone, Copy, PartialEq, Eq, Structural)]
pub enum CreateStep {
    /// `GetModuleHandleW(module_name)`; its answer is the instance used by
    /// the later steps.
    ModuleHandle { module_name: usize },
    /// `RegisterClassW` of the class named `MarkerWnd::class_name()` for
    /// that instance, with these fields.
    RegisterClass {
        style: u32,
        procedure: WindowProcedure,
        class_extra: i32,
        window_extra: i32,
        icon: usize,
        cursor: usize,
        background: usize,
        menu_name: usize,
    },
    /// `CreateWindowExW` of a window of the class `MarkerWnd::class_name()`
    /// for that instance, with these arguments.
    CreateWindow {
        ex_style: u32,
        window_name: usize,
        style: u32,
        x: i32,
        y: i32,
        width: i32,
        height: i32,
        parent: usize,
        menu: usize,
        create_param: usize,
    },
    /// `SetWindowPos` of the created window.
    SetPosition { insert_after: isize, x: i32, y: i32, cx: i32, cy: i32, flags: u32 },
    /// `SetLayeredWindowAttributes` of the created window, with the system
    /// colour of `key_color_index` as colour key.
    SetLayered { key_color_index: i32, alpha: u8, flags: u32 },
}

/// The parameters of `CreateFontA` for the marker text, the face name aside.
#[derive(Debug, Clone, Copy, PartialEq, Eq, Structural)]
pub struct FontSpec {
    pub height: i32,
    pub width: i32,
    pub escapement: i32,
    pub orientation: i32,
    pub weight: i32,
    pub italic: u32,
    pub underline: u32,
    pub strike_out: u32,
    pub char_set: u32,
    pub out_precision: u32,
    pub clip_precision: u32,
    pub quality: u32,
    pub pitch_and_family: u32,
}

/// One step of painting the marker window, in the order performed.
#[derive(Debug, Clone, Copy, PartialEq, Eq, Structural)]
pub enum PaintStep {
    /// `BeginPaint` on the window.
    BeginPaint,
    /// `FillRect` of the update region, with the system colour of
    /// `color_index` handed over as the brush.
    FillUpdateRegion { color_index: i32 },
    /// `SetTextColor` with this `COLORREF`.
    SetTextColor { color: u32 },
    /// `CreateFontA` with these parameters and `MarkerWnd::font_face_name()`.
    CreateFont { font: FontSpec },
    /// `SelectObject` of the font just created.
    SelectFont,
    /// `TextOutA` of the first `length` bytes of `MarkerWnd::marker_text()`.
    TextOut { x: i32, y: i32, length: i32 },
    /// `DeleteObject` of the font.
    DeleteFont,
    /// `EndPaint` on the window.
    EndPaint,
}

/// What the window procedure does with one message.
#[derive(Debug, Clone, Copy, PartialEq, Eq, Structural)]
pub enum WndProcAction {
    /// `PostQuitMessage(exit_code)`.
    PostQuit { exit_code: i32 },
    /// Perform `MarkerWnd::paint_steps()`.
    Paint,
    /// `SetBkColor` on the device context `dc` with the system colour
    /// `color_index`, then `SetLayeredWindowAttributes` of the window with
    /// that colour as key, `alpha` and `layered_flags`.
    EraseBackground { dc: usize, color_index: i32, alpha: u8, layered_flags: u32 },
    /// Hand the message to `DefWindowProcW`.
    Default,
}

/// The class name of the marker window.
pub open spec fn marker_class_name() -> Seq<char> {
    "MarkerWnd"@
}

/// The marker row shown in the window.
pub open spec fn spec_marker_text() -> Seq<u8> {
    seq![
        32u8, 70, 32, 32, 32, 32, 32, 32, 87, 32, 32, 32, 32, 32, 32, 32, 32, 69, 32, 32, 32,
        32, 32, 32, 32, 83, 32, 32, 32, 32, 32, 80, 32,
    ]
}

/// "Consolas".
pub open spec fn spec_font_face_name() -> Seq<u8> {
    seq![67u8, 111, 110, 115, 111, 108, 97, 115]
}

/// The requests of `create_window(x, y, width, heigh)`, in order: the
/// instance of the running module; the class "MarkerWnd" with an own device
/// context redrawn on resize, the marker procedure and no extra bytes, icon,
/// cursor, background or menu; a visible popup without name, parent, menu or
/// creation data that is transparent to input, layered and a tool window, at
/// the given place and size; placed on top of all windows without moving or
/// resizing it; layered with the window colour as colour key and alpha 10.
pub open spec fn spec_creation_steps(x: i32, y: i32, width: i32, heigh: i32) -> Seq<CreateStep> {
    seq![
        CreateStep::ModuleHandle { module_name: 0 },
        CreateStep::RegisterClass {
            style: CS_OWNDC | CS_HREDRAW | CS_VREDRAW,
            procedure: WindowProcedure::Marker,
            class_extra: 0,
            window_extra: 0,
            icon: 0,
            cursor: 0,
            background: 0,
            menu_name: 0,
        },
        CreateStep::CreateWindow {
            ex_style: WS_EX_TRANSPARENT | WS_EX_LAYERED | WS_EX_TOOLWINDOW,
            window_name: 0,
            style: WS_VISIBLE | WS_POPUP,
            x: x,
            y: y,
            width: width,
            height: heigh,
            parent: 0,
            menu: 0,
            create_param: 0,
        },
        CreateStep::SetPosition {
            insert_after: HWND_TOPMOST,
            x: 0,
            y: 0,
            cx: 0,
            cy: 0,
            flags: SWP_NOMOVE | SWP_NOSIZE,
        },
        CreateStep::SetLayered { key_color_index: COLOR_WINDOW, alpha: 10, flags: LWA_COLORKEY },
    ]
}

/// One request of a step of the message loop, in the order made.
#[derive(Debug, Clone, Copy, PartialEq, Eq, Structural)]
pub enum LoopStep {
    /// `TranslateMessage` of the retrieved message.
    Translate,
    /// `DispatchMessageW` of the retrieved message.
    Dispatch,
    /// Call `on_hot_key` once and return what it returns.
    ReturnHotKey,
    /// Call `on_close` once and return what it returns.
    ReturnClose,
    /// Return this value.
    Return(bool),
}

/// The `GetMessageW` request of the message loop: the window whose messages
/// are taken, and the lowest and highest message numbers taken (both 0: all).
#[derive(Debug, Clone, Copy, PartialEq, Eq, Structural)]
pub struct MessageRequest {
    pub window: usize,
    pub filter_min: u32,
    pub filter_max: u32,
}

/// The requests of the message loop once `GetMessageW` answered `retrieved`
/// for a message numbered `message`: when a message was retrieved
/// (`retrieved > 0`), translate and dispatch it, then answer with the
/// hot-key callback for `WM_HOTKEY`, the close callback for `WM_CLOSE`,
/// `true` otherwise; when none was (0 for `WM_QUIT`, -1 for an error),
/// answer `false`.
pub open spec fn spec_loop_steps(retrieved: i32, message: u32) -> Seq<LoopStep> {
    if retrieved > 0 {
        seq![
            LoopStep::Translate,
            LoopStep::Dispatch,
            if message == WM_HOTKEY {
                LoopStep::ReturnHotKey
            } else if message == WM_CLOSE {
                LoopStep::ReturnClose
            } else {
                LoopStep::Return(true)
            },
        ]
    } else {
        seq![LoopStep::Return(false)]
    }
}

/// A step that ends the loop step with an answer.
pub open spec fn is_answer(step: LoopStep) -> bool {
    step is ReturnHotKey || step is ReturnClose || step is Return
}

/// The font of the marker text: 25 units high, weight 100, ANSI character
/// set, variable pitch, everything else default.
pub open spec fn spec_marker_font() -> FontSpec {
    FontSpec {
        height: 25,
        width: 0,
        escapement: 0,
        orientation: 0,
        weight: 100,
        italic: 0,
        underline: 0,
        strike_out: 0,
        char_set: ANSI_CHARSET,
        out_precision: 0,
        clip_precision: 0,
        quality: 0,
        pitch_and_family: VARIABLE_PITCH,
    }
}

/// The text colour of the markers, RGB(255, 82, 51).
pub open spec fn spec_marker_color() -> u32 {
    colorref(255, 82, 51) as u32
}

/// How the marker window is painted.
pub open spec fn spec_paint_steps() -> Seq<PaintStep> {
    seq![
        PaintStep::BeginPaint,
        PaintStep::FillUpdateRegion { color_index: COLOR_WINDOW },
        PaintStep::SetTextColor { color: spec_marker_color() },
        PaintStep::CreateFont { font: spec_marker_font() },
        PaintStep::SelectFont,
        PaintStep::TextOut { x: 5, y: 5, length: 33 },
        PaintStep::DeleteFont,
        PaintStep::EndPaint,
    ]
}

/// What the window procedure does with message `msg` whose `wParam` is `wparam`.
pub open spec fn spec_window_procedure(msg: u32, wparam: usize) -> WndProcAction {
    if msg == WM_DESTROY {
        WndProcAction::PostQuit { exit_code: 0 }
    } else if msg == WM_PAINT {
        WndProcAction::Paint
    } else if msg == WM_ERASEBKGND {
        WndProcAction::EraseBackground {
            dc: wparam,
            color_index: COLOR_WINDOW,
            alpha: 100,
            layered_flags: LWA_COLORKEY,
        }
    } else {
        WndProcAction::Default
    }
}

/// The window procedure's return value for `action`, given what
/// `DefWindowProcW` returned.
pub open spec fn spec_procedure_result(action: WndProcAction, default_result: isize) -> isize {
    if action is Default {
        default_result
    } else {
        0
    }
}

/// The order of a paint sequence: it opens with `BeginPaint` and closes
/// with `EndPaint`, and performs neither anywhere else; it creates one font,
/// selects it once after creating it, draws the text after that, and
/// deletes it once, after the drawing and before `EndPaint`. Nothing selects
/// another font back before the deletion, so the font is still selected in
/// the device context when it is deleted.
pub open spec fn paint_order(steps: Seq<PaintStep>) -> bool {
    &&& steps.len() >= 2
    &&& steps[0] == PaintStep::BeginPaint
    &&& steps.last() == PaintStep::EndPaint
    &&& forall|k: int| 0 < k < steps.len() ==> steps[k] != PaintStep::BeginPaint
    &&& forall|k: int| 0 <= k < steps.len() - 1 ==> steps[k] != PaintStep::EndPaint
    &&& exists|c: int, s: int, t: int, d: int|
        0 < c < s < t < d < steps.len() - 1
        && steps[c] is CreateFont
        && steps[s] == PaintStep::SelectFont
        && steps[t] is TextOut
        && steps[d] == PaintStep::DeleteFont
        && (forall|k: int| 0 <= k < steps.len() && #[trigger] steps[k] is CreateFont ==> k == c)
        && (forall|k: int| 0 <= k < steps.len() && #[trigger] steps[k] == PaintStep::SelectFont ==> k == s)
        && (forall|k: int| 0 <= k < steps.len() && #[trigger] steps[k] == PaintStep::DeleteFont ==> k == d)
}

impl MarkerWnd {
    /// The class name under which the marker window is registered and
    /// created: "MarkerWnd" as a NUL-terminated wide string.
    pub fn class_name() -> (name: Vec<u16>)
        ensures
            name@ == utf16(marker_class_name()).push(0u16),
            name@ == seq![77u16, 97, 114, 107, 101, 114, 87, 110, 100, 0],
    {
        proof {
            lemma_class_name_units();
        }
        to_wide_null("MarkerWnd")
    }

    /// The requests of `create_window(x, y, width, heigh)`, in order (see
    /// `spec_creation_steps`). The class is registered once, before the
    /// window is created.
    pub fn creation_steps(x: i32, y: i32, width: i32, heigh: i32) -> (steps: Vec<CreateStep>)
        ensures
            steps@ == spec_creation_steps(x, y, width, heigh),
            steps@.len() == 5,
            steps@[1] is RegisterClass && steps@[2] is CreateWindow,
            forall|k: int| 0 <= k < steps@.len() && k != 1 ==> !(#[trigger] steps@[k] is RegisterClass),
            forall|k: int| 0 <= k < steps@.len() && k != 2 ==> !(#[trigger] steps@[k] is CreateWindow),
            steps@[0] == (CreateStep::ModuleHandle { module_name: 0 }),
            steps@[1] == (CreateStep::RegisterClass {
                style: 0x0023,
                procedure: WindowProcedure::Marker,
                class_extra: 0,
                window_extra: 0,
                icon: 0,
                cursor: 0,
                background: 0,
                menu_name: 0,
            }),
            steps@[2] == (CreateStep::CreateWindow {
                ex_style: 0x0008_00A0,
                window_name: 0,
                style: 0x9000_0000,
                x: x,
                y: y,
                width: width,
                height: heigh,
                parent: 0,
                menu: 0,
                create_param: 0,
            }),
            steps@[3] == (CreateStep::SetPosition {
                insert_after: -1isize,
                x: 0,
                y: 0,
                cx: 0,
                cy: 0,
                flags: 0x0003,
            }),
            steps@[4] == (CreateStep::SetLayered { key_color_index: 5, alpha: 10, flags: 0x0001 }),
    {
        proof {
            lemma_creation_steps_literal(x, y, width, heigh);
        }
        let steps: Vec<CreateStep> = vec![
            CreateStep::ModuleHandle { module_name: 0 },
            CreateStep::RegisterClass {
                style: CS_OWNDC | CS_HREDRAW | CS_VREDRAW,
                procedure: WindowProcedure::Marker,
                class_extra: 0,
                window_extra: 0,
                icon: 0,
                cursor: 0,
                background: 0,
                menu_name: 0,
            },
            CreateStep::CreateWindow {
                ex_style: WS_EX_TRANSPARENT | WS_EX_LAYERED | WS_EX_TOOLWINDOW,
                window_name: 0,
                style: WS_VISIBLE | WS_POPUP,
                x,
                y,
                width,
                height: heigh,
                parent: 0,
                menu: 0,
                create_param: 0,
            },
            CreateStep::SetPosition {
                insert_after: HWND_TOPMOST,
                x: 0,
                y: 0,
                cx: 0,
                cy: 0,
                flags: SWP_NOMOVE | SWP_NOSIZE,
            },
            CreateStep::SetLayered { key_color_index: COLOR_WINDOW, alpha: 10, flags: LWA_COLORKEY },
        ];
        assert(steps@ =~= spec_creation_steps(x, y, width, heigh));
        assert forall|k: int| 0 <= k < steps@.len() implies
            (steps@[k] is RegisterClass ==> k == 1) && (steps@[k] is CreateWindow ==> k == 2)
        by {
            if k == 0 {} else if k == 1 {} else if k == 2 {} else if k == 3 {} else {}
        }
        steps
    }

    /// The outcome of `create_window` once `CreateWindowExW` returned
    /// `handle`: a null handle is a failure with the system's last error
    /// code, any other handle is the new window.
    pub fn created(handle: usize, last_error: i32) -> (r: Result<MarkerWnd, OsError>)
        ensures
            handle == 0 <==> r is Err,
            r matches Ok(w) ==> w.handle == handle,
            r matches Err(e) ==> e.code == last_error,
    {
        if handle == 0 {
            Err(OsError { code: last_error })
        } else {
            Ok(MarkerWnd { handle })
        }
    }

    /// The marker row drawn into the window.
    pub fn marker_text() -> (text: Vec<u8>)
        ensures
            text@ == spec_marker_text(),
    {
        // " F      W        E       S     P "
        let text: Vec<u8> = vec![
            32u8, 70, 32, 32, 32, 32, 32, 32, 87, 32, 32, 32, 32, 32, 32, 32, 32, 69, 32, 32, 32,
            32, 32, 32, 32, 83, 32, 32, 32, 32, 32, 80, 32,
        ];
        assert(text@ =~= spec_marker_text());
        text
    }

    /// The face name of the marker font, "Consolas" (without a terminator;
    /// a C caller appends one).
    pub fn font_face_name() -> (name: Vec<u8>)
        ensures
            name@ == spec_font_face_name(),
    {
        // "Consolas"
        let name: Vec<u8> = vec![67u8, 111, 110, 115, 111, 108, 97, 115];
        assert(name@ =~= spec_font_face_name());
        name
    }

    /// The steps of painting the window: fill the update region with the
    /// window colour, select a new "Consolas" font in the marker colour,
    /// draw the whole marker row at (5, 5), and delete the font (still
    /// selected), all
    /// between `BeginPaint` and `EndPaint`.
    pub fn paint_steps() -> (steps: Vec<PaintStep>)
        ensures
            steps@ == spec_paint_steps(),
            paint_order(steps@),
            steps@.len() == 8,
            steps@[1] == (PaintStep::FillUpdateRegion { color_index: 5 }),
            steps@[2] == (PaintStep::SetTextColor { color: 0x0033_52FF }),
            steps@[3] == (PaintStep::CreateFont {
                font: FontSpec {
                    height: 25,
                    width: 0,
                    escapement: 0,
                    orientation: 0,
                    weight: 100,
                    italic: 0,
                    underline: 0,
                    strike_out: 0,
                    char_set: 0,
                    out_precision: 0,
                    clip_precision: 0,
                    quality: 0,
                    pitch_and_family: 2,
                },
            }),
            steps@[5] == (PaintStep::TextOut { x: 5, y: 5, length: spec_marker_text().len() as i32 }),
    {
        proof {
            lemma_paint_steps_literal();
        }
        let text_len: usize = Self::marker_text().len();
        let steps: Vec<PaintStep> = vec![
            PaintStep::BeginPaint,
            PaintStep::FillUpdateRegion { color_index: COLOR_WINDOW },
            PaintStep::SetTextColor { color: rgb(255, 82, 51) },
            PaintStep::CreateFont {
                font: FontSpec {
                    height: 25,
                    width: 0,
                    escapement: 0,
                    orientation: 0,
                    weight: 100,
                    italic: 0,
                    underline: 0,
                    strike_out: 0,
                    char_set: ANSI_CHARSET,
                    out_precision: 0,
                    clip_precision: 0,
                    quality: 0,
                    pitch_and_family: VARIABLE_PITCH,
                },
            },
            PaintStep::SelectFont,
            PaintStep::TextOut { x: 5, y: 5, length: text_len as i32 },
            PaintStep::DeleteFont,
            PaintStep::EndPaint,
        ];
        assert(steps@ =~= spec_paint_steps());
        proof {
            lemma_paint_steps_ordered();
        }
        steps
    }

    /// What the window procedure does with message `msg`: `WM_DESTROY` posts
    /// the quit message with exit code 0, `WM_PAINT` paints the markers,
    /// `WM_ERASEBKGND` sets the background colour of the device context in
    /// `wparam` to the window colour and makes the window layered with that
    /// colour as key and alpha 100; every other message goes to the default
    /// window procedure.
    pub fn window_procedure(msg: u32, wparam: usize) -> (action: WndProcAction)
        ensures
            action == spec_window_procedure(msg, wparam),
            msg == WM_DESTROY ==> action == (WndProcAction::PostQuit { exit_code: 0 }),
            msg == WM_PAINT ==> action == WndProcAction::Paint,
            msg == WM_ERASEBKGND ==> action == (WndProcAction::EraseBackground {
                dc: wparam,
                color_index: COLOR_WINDOW,
                alpha: 100,
                layered_flags: LWA_COLORKEY,
            }),
            action is PostQuit <==> msg == WM_DESTROY,
            action is Paint <==> msg == WM_PAINT,
            action is EraseBackground <==> msg == WM_ERASEBKGND,
            action is Default <==> (msg != WM_DESTROY && msg != WM_PAINT && msg != WM_ERASEBKGND),
    {
        proof {
            lemma_window_procedure_by_message(msg, wparam);
        }
        if msg == WM_DESTROY {
            WndProcAction::PostQuit { exit_code: 0 }
        } else if msg == WM_PAINT {
            WndProcAction::Paint
        } else if msg == WM_ERASEBKGND {
            WndProcAction::EraseBackground {
                dc: wparam,
                color_index: COLOR_WINDOW,
                alpha: 100,
                layered_flags: LWA_COLORKEY,
            }
        } else {
            WndProcAction::Default
        }
    }

    /// The window procedure's return value: 0 for a message it handled
    /// itself, and what `DefWindowProcW` returned (`default_result`) for a
    /// message handed to it.
    pub fn procedure_result(action: WndProcAction, default_result: isize) -> (r: isize)
        ensures
            r == spec_procedure_result(action, default_result),
            action is Default ==> r == default_result,
            !(action is Default) ==> r == 0,
    {
        match action {
            WndProcAction::Default => default_result,
            _ => 0,
        }
    }

    /// The `GetMessageW` request of `handle_message(window, ..)`: every
    /// message (both filters 0) of `window`.
    pub fn message_request(window: &MarkerWnd) -> (req: MessageRequest)
        ensures
            req == (MessageRequest { window: window.handle, filter_min: 0, filter_max: 0 }),
    {
        MessageRequest { window: window.handle, filter_min: 0, filter_max: 0 }
    }

    /// The requests of `handle_message` once `GetMessageW` answered
    /// `retrieved` for a message numbered `message` (see `spec_loop_steps`).
    /// Exactly one step answers, the last one, so at most one callback runs,
    /// once, and only after the message was translated and dispatched.
    pub fn loop_steps(retrieved: i32, message: u32) -> (steps: Vec<LoopStep>)
        ensures
            steps@ == spec_loop_steps(retrieved, message),
            steps@.len() >= 1,
            is_answer(steps@.last()),
            forall|k: int| 0 <= k < steps@.len() - 1 ==> !is_answer(#[trigger] steps@[k]),
            retrieved > 0 ==> steps@[0] == LoopStep::Translate && steps@[1] == LoopStep::Dispatch,
            retrieved <= 0 ==> steps@ == seq![LoopStep::Return(false)],
            retrieved > 0 ==> steps@.len() == 3,
            retrieved > 0 && message == WM_HOTKEY ==> steps@[2] == LoopStep::ReturnHotKey,
            retrieved > 0 && message == WM_CLOSE ==> steps@[2] == LoopStep::ReturnClose,
            retrieved > 0 && message != WM_HOTKEY && message != WM_CLOSE ==> steps@[2]
                == LoopStep::Return(true),
            retrieved > 0 ==> (steps@.last() == LoopStep::ReturnHotKey <==> message == WM_HOTKEY),
            retrieved > 0 ==> (steps@.last() == LoopStep::ReturnClose <==> message == WM_CLOSE),
            retrieved > 0 ==> (steps@.last() == LoopStep::Return(true) <==> (message != WM_HOTKEY
                && message != WM_CLOSE)),
            steps@.last() == LoopStep::Return(false) <==> retrieved <= 0,
    {
        proof {
            lemma_loop_steps_by_message(retrieved, message);
        }
        if retrieved > 0 {
            let answer = if message == WM_HOTKEY {
                LoopStep::ReturnHotKey
            } else if message == WM_CLOSE {
                LoopStep::ReturnClose
            } else {
                LoopStep::Return(true)
            };
            let steps: Vec<LoopStep> = vec![LoopStep::Translate, LoopStep::Dispatch, answer];
            assert(steps@ =~= spec_loop_steps(retrieved, message));
            assert forall|k: int| 0 <= k < steps@.len() - 1 implies !is_answer(#[trigger] steps@[k]) by {
                if k == 0 {} else {}
            }
            steps
        } else {
            let steps: Vec<LoopStep> = vec![LoopStep::Return(false)];
            assert(steps@ =~= spec_loop_steps(retrieved, message));
            steps
        }
    }
}

/// Law: for every message and every `wparam`: `WM_DESTROY` posts quit with
/// exit code 0, `WM_PAINT` (and nothing else) paints, `WM_ERASEBKGND` (and
/// nothing else) erases the background of the device context that is
/// `wparam` itself, with the window colour as key and alpha 100, and every
/// other message goes to the default procedure.
pub proof fn lemma_window_procedure_by_message(msg: u32, wparam: usize)
    ensures
        msg == 0x0002 ==> spec_window_procedure(msg, wparam) == (WndProcAction::PostQuit {
            exit_code: 0,
        }),
        spec_window_procedure(msg, wparam) is Paint <==> msg == 0x000F,
        msg == 0x0014 ==> spec_window_procedure(msg, wparam) == (WndProcAction::EraseBackground {
            dc: wparam,
            color_index: 5,
            alpha: 100,
            layered_flags: 0x0001,
        }),
        spec_window_procedure(msg, wparam) is EraseBackground <==> msg == 0x0014,
        spec_window_procedure(msg, wparam) is PostQuit <==> msg == 0x0002,
        spec_window_procedure(msg, wparam) is Default <==> (msg != 0x0002 && msg != 0x000F && msg
            != 0x0014),
{
}

/// Law: for every answer of `GetMessageW` and every message: with no
/// message (`retrieved <= 0`) the step answers `false` and requests nothing
/// else; with a message it translates, then dispatches, then answers by the
/// hot-key callback exactly for `WM_HOTKEY`, by the close callback exactly
/// for `WM_CLOSE`, and `true` for every other message, so only `WM_QUIT` or
/// an error, or a callback, ends the loop.
pub proof fn lemma_loop_steps_by_message(retrieved: i32, message: u32)
    ensures
        retrieved <= 0 ==> spec_loop_steps(retrieved, message) == seq![LoopStep::Return(false)],
        retrieved > 0 ==> spec_loop_steps(retrieved, message).len() == 3
            && spec_loop_steps(retrieved, message)[0] == LoopStep::Translate
            && spec_loop_steps(retrieved, message)[1] == LoopStep::Dispatch,
        retrieved > 0 ==> (spec_loop_steps(retrieved, message).last() == LoopStep::ReturnHotKey
            <==> message == 0x0312),
        retrieved > 0 ==> (spec_loop_steps(retrieved, message).last() == LoopStep::ReturnClose
            <==> message == 0x0010),
        retrieved > 0 && message != 0x0312 && message != 0x0010 ==> spec_loop_steps(
            retrieved,
            message,
        ).last() == LoopStep::Return(true),
        spec_loop_steps(retrieved, message).last() == LoopStep::Return(false) <==> retrieved <= 0,
{
}

/// Law: for every position and size, the requests of `create_window` are:
/// the module instance, the class registration, the creation of the window
/// at exactly that position and size, the topmost placement, and the layered
/// attributes; position and size reach `CreateWindowExW` unchanged.
pub proof fn lemma_creation_steps_literal(x: i32, y: i32, width: i32, heigh: i32)
    ensures
        spec_creation_steps(x, y, width, heigh).len() == 5,
        spec_creation_steps(x, y, width, heigh)[0] == (CreateStep::ModuleHandle { module_name: 0 }),
        spec_creation_steps(x, y, width, heigh)[1] == (CreateStep::RegisterClass {
            style: 0x0023,
            procedure: WindowProcedure::Marker,
            class_extra: 0,
            window_extra: 0,
            icon: 0,
            cursor: 0,
            background: 0,
            menu_name: 0,
        }),
        spec_creation_steps(x, y, width, heigh)[2] == (CreateStep::CreateWindow {
            ex_style: 0x0008_00A0,
            window_name: 0,
            style: 0x9000_0000,
            x: x,
            y: y,
            width: width,
            height: heigh,
            parent: 0,
            menu: 0,
            create_param: 0,
        }),
        spec_creation_steps(x, y, width, heigh)[3] == (CreateStep::SetPosition {
            insert_after: -1isize,
            x: 0,
            y: 0,
            cx: 0,
            cy: 0,
            flags: 0x0003,
        }),
        spec_creation_steps(x, y, width, heigh)[4] == (CreateStep::SetLayered {
            key_color_index: 5,
            alpha: 10,
            flags: 0x0001,
        }),
{
    assert(CS_OWNDC | CS_HREDRAW | CS_VREDRAW == 0x0023u32) by (bit_vector);
    assert(WS_EX_TRANSPARENT | WS_EX_LAYERED | WS_EX_TOOLWINDOW == 0x0008_00A0u32) by (bit_vector);
    assert(WS_VISIBLE | WS_POPUP == 0x9000_0000u32) by (bit_vector);
    assert(SWP_NOMOVE | SWP_NOSIZE == 0x0003u32) by (bit_vector);
}

/// Law: the class name is the UTF-16 units of "MarkerWnd" followed by one 0.
pub proof fn lemma_class_name_units()
    ensures
        utf16(marker_class_name()).push(0u16) == seq![77u16, 97, 114, 107, 101, 114, 87, 110, 100, 0],
{
    reveal_strlit("MarkerWnd");
    reveal_with_fuel(utf16, 10);
    assert(utf16(marker_class_name()).push(0u16) =~= seq![77u16, 97, 114, 107, 101, 114, 87, 110, 100, 0]);
}

/// Law: painting fills with the window colour, draws in RGB(255, 82, 51)
/// with a 25-high, weight-100, ANSI, variable-pitch font, and draws the
/// whole marker row (its full length) at (5, 5).
pub proof fn lemma_paint_steps_literal()
    ensures
        spec_paint_steps().len() == 8,
        spec_paint_steps()[1] == (PaintStep::FillUpdateRegion { color_index: 5 }),
        spec_paint_steps()[2] == (PaintStep::SetTextColor { color: 0x0033_52FF }),
        spec_paint_steps()[3] == (PaintStep::CreateFont {
            font: FontSpec {
                height: 25,
                width: 0,
                escapement: 0,
                orientation: 0,
                weight: 100,
                italic: 0,
                underline: 0,
                strike_out: 0,
                char_set: 0,
                out_precision: 0,
                clip_precision: 0,
                quality: 0,
                pitch_and_family: 2,
            },
        }),
        spec_paint_steps()[5] == (PaintStep::TextOut {
            x: 5,
            y: 5,
            length: spec_marker_text().len() as i32,
        }),
{
}

/// Law: the window procedure handles `WM_DESTROY`, `WM_PAINT` and
/// `WM_ERASEBKGND` itself and answers 0 for them; every other message goes
/// to the default window procedure, whose answer it returns unchanged. Only
/// `WM_DESTROY` posts the quit message.
pub proof fn lemma_window_procedure_answers(msg: u32, wparam: usize, default_result: isize)
    ensures
        (msg == WM_DESTROY || msg == WM_PAINT || msg == WM_ERASEBKGND) <==> !(spec_window_procedure(
            msg,
            wparam,
        ) is Default),
        (msg == WM_DESTROY || msg == WM_PAINT || msg == WM_ERASEBKGND) ==> spec_procedure_result(
            spec_window_procedure(msg, wparam),
            default_result,
        ) == 0,
        !(msg == WM_DESTROY || msg == WM_PAINT || msg == WM_ERASEBKGND) ==> spec_procedure_result(
            spec_window_procedure(msg, wparam),
            default_result,
        ) == default_result,
        spec_window_procedure(msg, wparam) is PostQuit <==> msg == WM_DESTROY,
{
}

/// Law: painting the marker window keeps the order of `paint_order`: one
/// `BeginPaint` first, one `EndPaint` last, and the one font created is
/// selected, then used for the text, then deleted before the end.
pub proof fn lemma_paint_steps_ordered()
    ensures
        paint_order(spec_paint_steps()),
{
    let s = spec_paint_steps();
    assert forall|k: int| 0 <= k < s.len() implies
        (s[k] == PaintStep::BeginPaint ==> k == 0)
        && (s[k] == PaintStep::EndPaint ==> k == 7)
        && (s[k] is CreateFont ==> k == 3)
        && (s[k] == PaintStep::SelectFont ==> k == 4)
        && (s[k] == PaintStep::DeleteFont ==> k == 6)
    by {
        if k == 0 {} else if k == 1 {} else if k == 2 {} else if k == 3 {} else if k == 4 {}
        else if k == 5 {} else if k == 6 {} else {}
    }
    assert(s[3] is CreateFont && s[4] == PaintStep::SelectFont && s[5] is TextOut && s[6]
        == PaintStep::DeleteFont);
}

} // verus!
