//! Raw per-tick input: mouse-motion samples and the key/cursor snapshot.

use vstd::prelude::*;

verus! {

/// One unconsumed mouse-motion observation: horizontal (`dx`) and
/// vertical (`dy`) pointer movement, in device counts, since the
/// previous observation.
#[derive(Clone, Copy, Debug, PartialEq, Eq, Structural)]
pub struct MouseDelta {
    pub dx: i32,
    pub dy: i32,
}

/// The currently-held movement keys plus the cursor-lock flag, sampled
/// once per tick by the input source and read-only to the controller.
///
/// Both the look update and the movement update are gated by
/// `cursor_locked`: while the cursor is free, input is drained but
/// leaves the camera untouched.
#[derive(Clone, Copy, Debug, PartialEq, Eq, Structural)]
pub struct InputSnapshot {
    /// W is held.
    pub forward: bool,
    /// S is held.
    pub backward: bool,
    /// A is held.
    pub left: bool,
    /// D is held.
    pub right: bool,
    /// Space is held.
    pub ascend: bool,
    /// Shift is held.
    pub descend: bool,
    /// Pointer movement is captured, so look and move input is live.
    pub cursor_locked: bool,
}

impl InputSnapshot {
    /// No movement key is held.
    pub open spec fn no_movement_keys(self) -> bool {
        !self.forward && !self.backward && !self.left && !self.right && !self.ascend
            && !self.descend
    }

    /// A snapshot with every key released and the cursor lock as given.
    pub fn released(cursor_locked: bool) -> (r: InputSnapshot)
        ensures
            r.no_movement_keys(),
            r.cursor_locked == cursor_locked,
    {
        InputSnapshot {
            forward: false,
            backward: false,
            left: false,
            right: false,
            ascend: false,
            descend: false,
            cursor_locked,
        }
    }
}

} // verus!
