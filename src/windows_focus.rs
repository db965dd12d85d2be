//! Window focus helpers for platforms without a native implementation.
use vstd::prelude::*;

verus! {

/// The work area of the monitor holding a point, as (left, top, right,
/// bottom); no platform query is available here, so there is none.
pub fn get_work_area_for_point(x: i32, y: i32) -> (r: Option<(i32, i32, i32, i32)>)
    ensures
        r is None,
{
    None
}

/// Keeps a window from taking focus when clicked; nothing needs doing here.
pub fn set_window_no_activate(hwnd: isize) -> (r: Result<(), String>)
    ensures
        r is Ok,
{
    Ok(())
}

} // verus!
