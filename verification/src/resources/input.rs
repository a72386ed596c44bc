//! Settings of the mouse.

use vstd::prelude::*;

verus! {

/// How the mouse turns the view: the sensitivity in thousandths, and
/// whether the pointer is locked to the window.
#[derive(Clone, Copy, Debug, PartialEq, Eq, Structural)]
pub struct MouseLook {
    pub sensitivity: u32,
    pub locked: bool,
}

impl Default for MouseLook {
    fn default() -> (m: MouseLook)
        ensures
            m == (MouseLook { sensitivity: 2_000, locked: false }),
    {
        MouseLook { sensitivity: 2_000, locked: false }
    }
}

} // verus!
