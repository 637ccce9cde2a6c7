use vstd::prelude::*;

use crate::error::OsError;

verus! {

/// The label window. `handle` identifies the window that was built.
#[derive(Debug, Clone, Copy, PartialEq, Eq, Structural)]
pub struct LabelWnd {
    pub handle: usize,
}

impl LabelWnd {
    /// The title of the label window.
    pub fn title() -> (t: &'static str)
        ensures
            t@ == "A fantastic window!"@,
    {
        "A fantastic window!"
    }

    /// The outcome of `create_window` once the window was built with
    /// `handle`: a null handle is a failure with the system's last error
    /// code, any other handle is the new window.
    pub fn created(handle: usize, last_error: i32) -> (r: Result<LabelWnd, OsError>)
        ensures
            handle == 0 <==> r is Err,
            r matches Ok(w) ==> w.handle == handle,
            r matches Err(e) ==> e.code == last_error,
    {
        if handle == 0 {
            Err(OsError { code: last_error })
        } else {
            Ok(LabelWnd { handle })
        }
    }
}

} // verus!
